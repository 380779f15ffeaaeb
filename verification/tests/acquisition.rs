use cjvalidate::acquisition::{accepts_status, Acquisition, Fault, Progress, Request};
use cjvalidate::extension::{declared_extensions, Declaration};
use cjvalidate::verdict::Verdict;

fn declaration(name: &str, url: Option<&str>) -> Declaration {
    Declaration {
        name: name.to_string(),
        url: url.map(|u| u.to_string()),
    }
}

fn read(path: &str) -> Progress {
    Progress::Pending(Request::Read(path.to_string()))
}

fn fetch(url: &str) -> Progress {
    Progress::Pending(Request::Fetch(url.to_string()))
}

#[test]
fn success_statuses_are_200_to_299() {
    assert!(!accepts_status(0));
    assert!(!accepts_status(100));
    assert!(!accepts_status(199));
    assert!(accepts_status(200));
    assert!(accepts_status(204));
    assert!(accepts_status(299));
    assert!(!accepts_status(300));
    assert!(!accepts_status(304));
    assert!(!accepts_status(404));
    assert!(!accepts_status(500));
    assert!(!accepts_status(u16::MAX));
}

#[test]
fn no_mode_requested_leaves_nothing_to_get() {
    let acquisition = Acquisition::local(Vec::new());
    assert_eq!(acquisition.progress(), Progress::Done);
    assert_eq!(acquisition.verdict(), None);
    assert_eq!(acquisition.finish(), Some(Vec::new()));
}

#[test]
fn two_local_files_are_read_in_the_order_given() {
    let mut acquisition =
        Acquisition::local(vec!["b.ext.json".to_string(), "a.ext.json".to_string()]);
    assert_eq!(acquisition.progress(), read("b.ext.json"));
    assert!(acquisition.supply("{\"name\":\"B\"}".to_string()));
    assert_eq!(acquisition.progress(), read("a.ext.json"));
    assert!(acquisition.supply("{\"name\":\"A\"}".to_string()));
    assert_eq!(acquisition.progress(), Progress::Done);
    assert_eq!(acquisition.verdict(), None);
    assert_eq!(
        acquisition.finish(),
        Some(vec![
            "{\"name\":\"B\"}".to_string(),
            "{\"name\":\"A\"}".to_string()
        ])
    );
}

#[test]
fn unfinished_acquisition_hands_out_no_texts() {
    let mut acquisition = Acquisition::local(vec!["a".to_string(), "b".to_string()]);
    assert!(acquisition.supply("one".to_string()));
    assert_eq!(acquisition.progress(), read("b"));
    assert_eq!(acquisition.finish(), None);
}

#[test]
fn unreadable_file_fails_the_acquisition() {
    let mut acquisition = Acquisition::local(vec!["a.json".to_string(), "b.json".to_string()]);
    assert!(acquisition.fail("No such file or directory (os error 2)".to_string()));
    let fault = Fault::Unreadable {
        path: "a.json".to_string(),
        reason: "No such file or directory (os error 2)".to_string(),
    };
    assert_eq!(acquisition.progress(), Progress::Failed(fault));
    assert_eq!(acquisition.verdict(), Some(Verdict::Invalid));
    assert!(!acquisition.supply("late".to_string()));
    assert!(!acquisition.fail("again".to_string()));
    assert_eq!(acquisition.finish(), None);
}

#[test]
fn local_source_takes_no_status() {
    let mut acquisition = Acquisition::local(vec!["a.json".to_string()]);
    assert!(!acquisition.responded(200));
    assert!(!acquisition.responded(404));
    assert_eq!(acquisition.progress(), read("a.json"));
}

#[test]
fn dataset_without_extensions_gives_an_empty_set() {
    let declared = declared_extensions("{\"type\":\"CityJSON\",\"version\":\"1.1\"}");
    let acquisition = Acquisition::remote(declared.declarations().unwrap());
    assert_eq!(acquisition.progress(), Progress::Done);
    assert_eq!(acquisition.verdict(), None);
    assert_eq!(acquisition.finish(), Some(Vec::new()));
}

#[test]
fn url_answering_404_is_fatal() {
    let declared = declared_extensions(
        "{\"extensions\":{\"Noise\":{\"url\":\"https://example.org/noise.ext.json\"}}}",
    );
    let mut acquisition = Acquisition::remote(declared.declarations().unwrap());
    assert_eq!(
        acquisition.progress(),
        fetch("https://example.org/noise.ext.json")
    );
    assert!(!acquisition.responded(404));
    assert_eq!(
        acquisition.progress(),
        Progress::Failed(Fault::Refused {
            url: "https://example.org/noise.ext.json".to_string(),
            status: 404,
        })
    );
    assert_eq!(acquisition.verdict(), Some(Verdict::Invalid));
    assert!(!acquisition.supply("<html>not found</html>".to_string()));
    assert!(!acquisition.responded(200));
    assert_eq!(acquisition.finish(), None);
}

#[test]
fn accepted_response_is_read_and_kept() {
    let mut acquisition = Acquisition::remote(vec![
        declaration("A", Some("https://a.example/a.json")),
        declaration("B", Some("http://b.example/b.json")),
    ]);
    assert_eq!(acquisition.progress(), fetch("https://a.example/a.json"));
    assert!(acquisition.responded(200));
    assert_eq!(acquisition.progress(), fetch("https://a.example/a.json"));
    assert!(acquisition.supply("schema a".to_string()));
    assert_eq!(acquisition.progress(), fetch("http://b.example/b.json"));
    assert!(acquisition.responded(299));
    assert!(acquisition.supply("schema b".to_string()));
    assert_eq!(acquisition.progress(), Progress::Done);
    assert_eq!(
        acquisition.finish(),
        Some(vec!["schema a".to_string(), "schema b".to_string()])
    );
}

#[test]
fn first_failure_stops_the_fetching() {
    let mut acquisition = Acquisition::remote(vec![
        declaration("A", Some("https://a.example/a.json")),
        declaration("B", Some("https://b.example/b.json")),
        declaration("C", Some("https://c.example/c.json")),
    ]);
    assert!(acquisition.responded(200));
    assert!(acquisition.supply("schema a".to_string()));
    assert!(!acquisition.responded(500));
    assert_eq!(
        acquisition.progress(),
        Progress::Failed(Fault::Refused {
            url: "https://b.example/b.json".to_string(),
            status: 500,
        })
    );
    assert_eq!(acquisition.verdict(), Some(Verdict::Invalid));
    assert_eq!(acquisition.finish(), None);
}

#[test]
fn transport_failure_is_fatal() {
    let mut acquisition =
        Acquisition::remote(vec![declaration("A", Some("https://a.example/a.json"))]);
    assert!(acquisition.fail("error sending request".to_string()));
    assert_eq!(
        acquisition.progress(),
        Progress::Failed(Fault::Unreachable {
            url: "https://a.example/a.json".to_string(),
            reason: "error sending request".to_string(),
        })
    );
    assert_eq!(acquisition.verdict(), Some(Verdict::Invalid));
}

#[test]
fn failure_while_reading_the_body_is_fatal() {
    let mut acquisition =
        Acquisition::remote(vec![declaration("A", Some("https://a.example/a.json"))]);
    assert!(acquisition.responded(200));
    assert!(acquisition.fail("error decoding response body".to_string()));
    assert_eq!(
        acquisition.progress(),
        Progress::Failed(Fault::Unreachable {
            url: "https://a.example/a.json".to_string(),
            reason: "error decoding response body".to_string(),
        })
    );
}

#[test]
fn extension_without_url_cannot_be_asked_for() {
    let mut acquisition = Acquisition::remote(vec![
        declaration("A", Some("https://a.example/a.json")),
        declaration("B", None),
    ]);
    assert_eq!(acquisition.progress(), fetch("https://a.example/a.json"));
    assert_eq!(acquisition.verdict(), None);
    assert!(acquisition.responded(200));
    assert!(acquisition.supply("schema a".to_string()));
    assert_eq!(
        acquisition.progress(),
        Progress::Failed(Fault::UrlMissing {
            name: "B".to_string()
        })
    );
    assert_eq!(acquisition.verdict(), Some(Verdict::Invalid));
    assert!(!acquisition.supply("x".to_string()));
    assert!(!acquisition.fail("x".to_string()));
    assert!(!acquisition.responded(200));
}

#[test]
fn text_that_is_no_absolute_url_cannot_be_asked_for() {
    for text in ["", "noise.ext.json", "/schemas/noise.json", "//example.org/a", "https://"] {
        let acquisition = Acquisition::remote(vec![declaration("A", Some(text))]);
        assert_eq!(
            acquisition.progress(),
            Progress::Failed(Fault::UrlInvalid {
                url: text.to_string()
            })
        );
        assert_eq!(acquisition.verdict(), Some(Verdict::Invalid));
    }
}

#[test]
fn absolute_urls_are_asked_for_as_declared() {
    for text in [
        "https://example.org/noise.ext.json",
        "HTTP://Example.ORG/a b",
        "file:///tmp/a.json",
        "mailto:someone@example.org",
    ] {
        let acquisition = Acquisition::remote(vec![declaration("A", Some(text))]);
        assert_eq!(acquisition.progress(), fetch(text));
    }
}
