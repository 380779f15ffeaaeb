//! Getting the texts of the Extension schemas, one after another.
//!
//! An [`Acquisition`] holds where the schemas are to come from, either local
//! files or the URLs that the dataset declares, never both. It says what is
//! to be read or fetched next, takes the text or the failure back, and stops
//! for good at the first failure: an Extension that cannot be had makes what
//! would follow meaningless. It reads and fetches nothing itself.

use vstd::prelude::*;
use crate::extension::Declaration;
use crate::verdict::Verdict;

verus! {

/// Whether `url::Url::parse` takes a text for an absolute URL.
pub uninterp spec fn url_parses(text: Seq<char>) -> bool;

/// Asks `url::Url::parse` whether a text is an absolute URL. The answer
/// depends on the text alone; the contract gives it its name and claims
/// nothing else of it.
#[verifier::external_body]
pub(crate) fn is_url(text: &str) -> (accepted: bool)
    ensures
        accepted == url_parses(text@),
{
    url::Url::parse(text).is_ok()
}

/// The HTTP statuses that stand for success: 200 to 299.
pub open spec fn success_status(status: int) -> bool {
    200 <= status < 300
}

/// Whether a response with this status is taken for the schema.
pub fn accepts_status(status: u16) -> (accepted: bool)
    ensures
        accepted == success_status(status as int),
{
    200 <= status && status < 300
}

/// Where one schema is to come from.
#[derive(Debug, PartialEq, Eq)]
pub enum Source {
    /// A local file, by its path.
    File(String),
    /// An Extension as the dataset declares it.
    Declared(Declaration),
}

/// What is to be done to get the next schema.
#[derive(Debug, PartialEq, Eq)]
pub enum Request {
    /// Read the file at this path as text.
    Read(String),
    /// Fetch this URL and take the body of the response as text.
    Fetch(String),
}

/// Why no further schema is asked for.
#[derive(Debug, PartialEq, Eq)]
pub enum Fault {
    /// The Extension of this name gives no URL as a string.
    UrlMissing { name: String },
    /// What the Extension gives is no URL.
    UrlInvalid { url: String },
    /// The file could not be read.
    Unreadable { path: String, reason: String },
    /// The URL could not be reached, or its body not be read.
    Unreachable { url: String, reason: String },
    /// The URL answered with a status that is no success.
    Refused { url: String, status: u16 },
}

/// Where an acquisition stands.
#[derive(Debug, PartialEq, Eq)]
pub enum Progress {
    /// This is to be done next.
    Pending(Request),
    /// Every schema is there.
    Done,
    /// The acquisition has failed, and the run with it.
    Failed(Fault),
}

/// An acquisition as contracts see it.
pub struct AcquisitionView {
    /// Where the schemas come from, in the order in which they are asked for.
    pub sources: Seq<Source>,
    /// The texts supplied so far, in the order of their sources.
    pub texts: Seq<Seq<char>>,
    /// The failure that was reported, if any.
    pub fault: Option<Fault>,
}

/// What a source asks for, or why it cannot be asked for.
pub open spec fn request_for(source: Source) -> Result<Request, Fault> {
    match source {
        Source::File(path) => Ok(Request::Read(path)),
        Source::Declared(declaration) => match declaration.url {
            None => Err(Fault::UrlMissing { name: declaration.name }),
            Some(url) => if url_parses(url@) {
                Ok(Request::Fetch(url))
            } else {
                Err(Fault::UrlInvalid { url })
            },
        },
    }
}

/// The sources are local files only, or declared Extensions only.
pub open spec fn of_one_kind(sources: Seq<Source>) -> bool {
    ||| forall|i: int| 0 <= i < sources.len() ==> (#[trigger] sources[i]) is File
    ||| forall|i: int| 0 <= i < sources.len() ==> (#[trigger] sources[i]) is Declared
}

/// The states an acquisition can be in: one text for each source served,
/// sources of one kind.
pub open spec fn consistent(state: AcquisitionView) -> bool {
    &&& state.texts.len() <= state.sources.len()
    &&& of_one_kind(state.sources)
}

/// Where an acquisition stands: failed once a failure was reported or the
/// next source cannot be asked for, done when each source has its text, and
/// else waiting for the next source in order.
pub open spec fn progress_of(state: AcquisitionView) -> Progress {
    if state.fault is Some {
        Progress::Failed(state.fault->0)
    } else if state.texts.len() >= state.sources.len() {
        Progress::Done
    } else {
        match request_for(state.sources[state.texts.len() as int]) {
            Ok(request) => Progress::Pending(request),
            Err(fault) => Progress::Failed(fault),
        }
    }
}

/// The failure that a request ends in when it cannot be carried out.
pub open spec fn failure_of(request: Request, reason: String) -> Fault {
    match request {
        Request::Read(path) => Fault::Unreadable { path, reason },
        Request::Fetch(url) => Fault::Unreachable { url, reason },
    }
}

/// The state after a text was handed in: it is kept when a request was
/// pending, and dropped otherwise.
pub open spec fn after_supply(state: AcquisitionView, text: Seq<char>) -> AcquisitionView {
    if progress_of(state) is Pending {
        AcquisitionView { texts: state.texts.push(text), ..state }
    } else {
        state
    }
}

/// The state after the news that a request could not be carried out: failed
/// when a request was pending, unchanged otherwise.
pub open spec fn after_failure(state: AcquisitionView, reason: String) -> AcquisitionView {
    match progress_of(state) {
        Progress::Pending(request) => AcquisitionView {
            fault: Some(failure_of(request, reason)),
            ..state
        },
        _ => state,
    }
}

/// The state after a URL answered with a status: failed when a fetch was
/// pending and the status is no success, unchanged otherwise.
pub open spec fn after_status(state: AcquisitionView, status: u16) -> AcquisitionView {
    match progress_of(state) {
        Progress::Pending(Request::Fetch(url)) if !success_status(status as int) => {
            AcquisitionView { fault: Some(Fault::Refused { url, status }), ..state }
        },
        _ => state,
    }
}

/// The state of an acquisition.
#[derive(Debug)]
pub struct Acquisition {
    sources: Vec<Source>,
    texts: Vec<String>,
    fault: Option<Fault>,
}

impl View for Acquisition {
    type V = AcquisitionView;

    closed spec fn view(&self) -> AcquisitionView {
        AcquisitionView {
            sources: self.sources@,
            texts: self.texts.deep_view(),
            fault: self.fault,
        }
    }
}

/// A copy of a text.
fn copy_of(text: &String) -> (copy: String)
    ensures
        copy == *text,
{
    text.clone()
}

impl Fault {
    /// A copy of this failure.
    fn duplicate(&self) -> (copy: Fault)
        ensures
            copy == *self,
    {
        match self {
            Fault::UrlMissing { name } => Fault::UrlMissing { name: copy_of(name) },
            Fault::UrlInvalid { url } => Fault::UrlInvalid { url: copy_of(url) },
            Fault::Unreadable { path, reason } => Fault::Unreadable {
                path: copy_of(path),
                reason: copy_of(reason),
            },
            Fault::Unreachable { url, reason } => Fault::Unreachable {
                url: copy_of(url),
                reason: copy_of(reason),
            },
            Fault::Refused { url, status } => Fault::Refused { url: copy_of(url), status: *status },
        }
    }
}

impl Acquisition {
    #[verifier::type_invariant]
    spec fn well_formed(self) -> bool {
        consistent(self@)
    }

    /// An acquisition from local files, read in the order given. With no
    /// path there is nothing to get.
    pub fn local(paths: Vec<String>) -> (acquisition: Acquisition)
        ensures
            acquisition@.sources.len() == paths@.len(),
            forall|i: int|
                0 <= i < paths@.len() ==> #[trigger] acquisition@.sources[i] == Source::File(
                    paths@[i],
                ),
            acquisition@.texts.len() == 0,
            acquisition@.fault is None,
            consistent(acquisition@),
    {
        let mut sources: Vec<Source> = Vec::new();
        let mut paths = paths;
        let ghost given = paths@;
        let mut i: usize = 0;
        while i < paths.len()
            invariant
                i <= paths.len(),
                paths@.len() == given.len(),
                sources@.len() == i,
                forall|k: int| 0 <= k < i ==> #[trigger] sources@[k] == Source::File(given[k]),
                forall|k: int| i <= k < paths@.len() ==> #[trigger] paths@[k] == given[k],
            decreases paths.len() - i,
        {
            let mut path = String::new();
            std::mem::swap(&mut paths[i], &mut path);
            sources.push(Source::File(path));
            i = i + 1;
        }
        let acquisition = Acquisition { sources, texts: Vec::new(), fault: None };
        assert(acquisition@.texts =~= Seq::<Seq<char>>::empty());
        acquisition
    }

    /// An acquisition of the Extensions that a dataset declares, fetched in
    /// the order given. A dataset that declares none leaves nothing to get,
    /// which is no failure.
    pub fn remote(declarations: Vec<Declaration>) -> (acquisition: Acquisition)
        ensures
            acquisition@.sources.len() == declarations@.len(),
            forall|i: int|
                0 <= i < declarations@.len() ==> #[trigger] acquisition@.sources[i]
                    == Source::Declared(declarations@[i]),
            acquisition@.texts.len() == 0,
            acquisition@.fault is None,
            consistent(acquisition@),
    {
        let mut sources: Vec<Source> = Vec::new();
        let mut declarations = declarations;
        let ghost given = declarations@;
        let mut i: usize = 0;
        while i < declarations.len()
            invariant
                i <= declarations.len(),
                declarations@.len() == given.len(),
                sources@.len() == i,
                forall|k: int| 0 <= k < i ==> #[trigger] sources@[k] == Source::Declared(given[k]),
                forall|k: int|
                    i <= k < declarations@.len() ==> #[trigger] declarations@[k] == given[k],
            decreases declarations.len() - i,
        {
            let mut declaration = Declaration { name: String::new(), url: None };
            std::mem::swap(&mut declarations[i], &mut declaration);
            sources.push(Source::Declared(declaration));
            i = i + 1;
        }
        let acquisition = Acquisition { sources, texts: Vec::new(), fault: None };
        assert(acquisition@.texts =~= Seq::<Seq<char>>::empty());
        acquisition
    }

    /// Adds one more text.
    fn keep(&mut self, text: String)
        requires
            old(self)@.texts.len() < old(self)@.sources.len(),
        ensures
            final(self)@ == (AcquisitionView {
                texts: old(self)@.texts.push(text@),
                ..old(self)@
            }),
    {
        proof {
            use_type_invariant(&*self);
        }
        let ghost before = self@.texts;
        let mut texts: Vec<String> = Vec::new();
        std::mem::swap(&mut self.texts, &mut texts);
        texts.push(text);
        assert(texts.deep_view() =~= before.push(text@));
        std::mem::swap(&mut self.texts, &mut texts);
    }

    /// Where the acquisition stands, and what is to be done next.
    pub fn progress(&self) -> (progress: Progress)
        ensures
            progress == progress_of(self@),
            consistent(self@),
    {
        proof {
            use_type_invariant(self);
        }
        match &self.fault {
            Some(fault) => {
                return Progress::Failed(fault.duplicate());
            },
            None => {},
        }
        let served = self.texts.len();
        if served >= self.sources.len() {
            return Progress::Done;
        }
        match &self.sources[served] {
            Source::File(path) => Progress::Pending(Request::Read(copy_of(path))),
            Source::Declared(declaration) => match &declaration.url {
                None => Progress::Failed(Fault::UrlMissing { name: copy_of(&declaration.name) }),
                Some(url) => {
                    if is_url(url.as_str()) {
                        Progress::Pending(Request::Fetch(copy_of(url)))
                    } else {
                        Progress::Failed(Fault::UrlInvalid { url: copy_of(url) })
                    }
                },
            },
        }
    }

    /// Takes the text that the pending request gave. Accepted while a
    /// request is pending; otherwise the acquisition is left as it was.
    pub fn supply(&mut self, text: String) -> (accepted: bool)
        ensures
            accepted == (progress_of(old(self)@) is Pending),
            final(self)@ == after_supply(old(self)@, text@),
            consistent(final(self)@),
    {
        proof {
            use_type_invariant(&*self);
        }
        match self.progress() {
            Progress::Pending(_) => {
                self.keep(text);
                true
            },
            _ => false,
        }
    }

    /// Takes the news that the pending request could not be carried out: the
    /// file not read, the URL not reached, the body not received. Accepted
    /// while a request is pending; from then on the acquisition has failed.
    pub fn fail(&mut self, reason: String) -> (accepted: bool)
        ensures
            accepted == (progress_of(old(self)@) is Pending),
            final(self)@ == after_failure(old(self)@, reason),
            consistent(final(self)@),
    {
        proof {
            use_type_invariant(&*self);
        }
        match self.progress() {
            Progress::Pending(Request::Read(path)) => {
                self.fault = Some(Fault::Unreadable { path, reason });
                true
            },
            Progress::Pending(Request::Fetch(url)) => {
                self.fault = Some(Fault::Unreachable { url, reason });
                true
            },
            _ => false,
        }
    }

    /// Takes the status with which the pending URL answered, and says
    /// whether the body is to be read. A status that is no success fails the
    /// acquisition. Where no URL is pending the answer is `false` and the
    /// acquisition is left as it was.
    pub fn responded(&mut self, status: u16) -> (proceed: bool)
        ensures
            proceed == (progress_of(old(self)@) matches Progress::Pending(Request::Fetch(_))
                && success_status(status as int)),
            final(self)@ == after_status(old(self)@, status),
            consistent(final(self)@),
    {
        proof {
            use_type_invariant(&*self);
        }
        match self.progress() {
            Progress::Pending(Request::Fetch(url)) => {
                if accepts_status(status) {
                    true
                } else {
                    self.fault = Some(Fault::Refused { url, status });
                    false
                }
            },
            _ => false,
        }
    }

    /// The verdict that a failed acquisition gives the run: `Invalid`, with
    /// no stage made. `None` as long as the acquisition has not failed.
    pub fn verdict(&self) -> (verdict: Option<Verdict>)
        ensures
            verdict == (if progress_of(self@) is Failed {
                Some(Verdict::Invalid)
            } else {
                None
            }),
    {
        match self.progress() {
            Progress::Failed(_) => Some(Verdict::Invalid),
            _ => None,
        }
    }

    /// The texts of the schemas, in the order of their sources, once each
    /// source has been served; `None` before that and after a failure.
    pub fn finish(self) -> (texts: Option<Vec<String>>)
        ensures
            texts is Some <==> progress_of(self@) is Done,
            texts matches Some(all) ==> all.deep_view() == self@.texts && all@.len()
                == self@.sources.len(),
    {
        proof {
            use_type_invariant(&self);
        }
        match self.progress() {
            Progress::Done => Some(self.texts),
            _ => None,
        }
    }
}

} // verus!
