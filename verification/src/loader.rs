//! The decisions of loading one module. The host opens the library, reads the
//! descriptor and calls the factory; after each step it reports what happened
//! and is told what to do next.

use crate::algorithm::Algorithm;
use crate::error::{Error, ErrorKind};
use crate::registration::{check_data_lengths, AlgorithmRegistration, DataLength};
use vstd::prelude::*;
use vstd::string::StringExecFns;

verus! {

/// How far a load has come.
#[derive(Clone, Copy, Debug, PartialEq, Eq, Structural)]
pub enum LoadStage {
    /// The path is being resolved.
    Resolving,
    /// The library is being opened.
    Opening,
    /// The descriptor is being read.
    Reading,
    /// The factory is being called.
    Instantiating,
    /// The instance exists; the algorithm can be bundled.
    Loaded,
    /// The load was given up.
    Failed,
}

/// What the host reports after a step.
pub enum LoadEvent {
    /// The path resolved to this existing entry.
    PathResolved(String),
    /// The path did not resolve; the text says why.
    PathUnresolved(String),
    /// The library is open.
    LibraryOpened,
    /// The linker or loader refused; the text says why.
    LibraryRefused(String),
    /// The descriptor was read and says this.
    DescriptorRead(AlgorithmRegistration),
    /// The factory returned an instance.
    InstanceCreated,
    /// A fault was contained while reading the descriptor or calling the factory.
    Faulted,
}

/// What the host is to do next.
pub enum LoadAction {
    /// Open the library at the resolved path.
    OpenLibrary,
    /// Read the descriptor from the open library.
    ReadDescriptor,
    /// Call the factory.
    CreateInstance,
    /// Bundle the instance into an algorithm.
    Finish,
    /// Give up with this error.
    Abort(Error<ErrorKind>),
}

/// Where a report leads from a stage: the next stage, or the kind of error
/// that ends the load. A report that the stage did not ask for ends it with
/// `Other`.
pub open spec fn outcome(
    stage: LoadStage,
    event: LoadEvent,
    host_rustc: Seq<char>,
    host_utils: Seq<char>,
) -> Result<LoadStage, ErrorKind> {
    match (stage, event) {
        (LoadStage::Resolving, LoadEvent::PathResolved(_)) => Ok(LoadStage::Opening),
        (LoadStage::Resolving, LoadEvent::PathUnresolved(_)) => Err(ErrorKind::IO),
        (LoadStage::Opening, LoadEvent::LibraryOpened) => Ok(LoadStage::Reading),
        (LoadStage::Opening, LoadEvent::LibraryRefused(_)) => Err(ErrorKind::ModuleOpenFailed),
        (LoadStage::Reading, LoadEvent::LibraryRefused(_)) => Err(ErrorKind::ModuleOpenFailed),
        (LoadStage::Reading, LoadEvent::Faulted) => Err(ErrorKind::ModuleFault),
        (LoadStage::Reading, LoadEvent::DescriptorRead(registration)) => {
            if !registration.versions_match(host_rustc, host_utils) {
                Err(ErrorKind::MisMatchedVersion)
            } else if !registration.lengths_valid() {
                Err(ErrorKind::InvalidModuleConfig)
            } else {
                Ok(LoadStage::Instantiating)
            }
        },
        (LoadStage::Instantiating, LoadEvent::InstanceCreated) => Ok(LoadStage::Loaded),
        (LoadStage::Instantiating, LoadEvent::Faulted) => Err(ErrorKind::ModuleFault),
        _ => Err(ErrorKind::Other),
    }
}

/// The text for a descriptor whose versions are not the host's.
pub open spec fn mismatch_message(
    registration: AlgorithmRegistration,
    host_rustc: Seq<char>,
    host_utils: Seq<char>,
) -> Seq<char> {
    "The algorithm `"@ + registration.name@ + "` has a mismatched version!\nAlgorithm version: ["@
        + registration.rustc_version@ + "/"@ + registration.utils_version@
        + "]\nUtils version: ["@ + host_rustc + "/"@ + host_utils + "]"@
}

/// The text for a descriptor whose bounds are not a valid pair.
pub open spec fn invalid_config_message(registration: AlgorithmRegistration) -> Seq<char> {
    "The algorithm `"@ + registration.name@
        + "` is not configured correctly\n(min_data_length: "@
        + registration.min_data_length.text() + ", max_data_length: "@
        + registration.max_data_length.text() + ")"@
}

/// The text of the error that ends a load, for a report that ends it.
pub open spec fn failure_message(
    stage: LoadStage,
    event: LoadEvent,
    host_rustc: Seq<char>,
    host_utils: Seq<char>,
) -> Seq<char> {
    match (stage, event) {
        (LoadStage::Resolving, LoadEvent::PathUnresolved(text)) => text@,
        (LoadStage::Opening, LoadEvent::LibraryRefused(text)) => text@,
        (LoadStage::Reading, LoadEvent::LibraryRefused(text)) => text@,
        (LoadStage::Reading, LoadEvent::Faulted) => "The module faulted while its descriptor was read"@,
        (LoadStage::Reading, LoadEvent::DescriptorRead(registration)) => {
            if !registration.versions_match(host_rustc, host_utils) {
                mismatch_message(registration, host_rustc, host_utils)
            } else {
                invalid_config_message(registration)
            }
        },
        (LoadStage::Instantiating, LoadEvent::Faulted) => "The module faulted while its instance was made"@,
        _ => "The loader was told of a step it had not asked for"@,
    }
}

/// What the host is asked to do on entering a stage.
pub open spec fn action_entering(stage: LoadStage, action: LoadAction) -> bool {
    match stage {
        LoadStage::Opening => action is OpenLibrary,
        LoadStage::Reading => action is ReadDescriptor,
        LoadStage::Instantiating => action is CreateInstance,
        LoadStage::Loaded => action is Finish,
        _ => false,
    }
}

/// One load in progress.
pub struct Loader {
    stage: LoadStage,
    host_rustc: String,
    host_utils: String,
    path: Option<String>,
    registration: Option<AlgorithmRegistration>,
}

impl Loader {
    #[verifier::type_invariant]
    spec fn consistent(&self) -> bool {
        &&& (self.stage is Opening || self.stage is Reading || self.stage is Instantiating
            || self.stage is Loaded) ==> self.path is Some
        &&& (self.stage is Instantiating || self.stage is Loaded) ==> {
            &&& self.registration matches Some(registration)
            &&& registration.versions_match(self.host_rustc@, self.host_utils@)
            &&& registration.lengths_valid()
        }
        &&& (self.stage is Resolving || self.stage is Opening || self.stage is Reading)
            ==> self.registration is None
        &&& self.stage is Resolving ==> self.path is None
    }

    /// The stage the load is in.
    pub closed spec fn stage_of(&self) -> LoadStage {
        self.stage
    }

    /// The toolchain version of the host.
    pub closed spec fn host_rustc_text(&self) -> Seq<char> {
        self.host_rustc@
    }

    /// The library version of the host.
    pub closed spec fn host_utils_text(&self) -> Seq<char> {
        self.host_utils@
    }

    /// The resolved path, once there is one.
    pub closed spec fn resolved_path(&self) -> Option<Seq<char>> {
        match self.path {
            Some(path) => Some(path@),
            None => None,
        }
    }

    /// The descriptor, once it has passed both checks.
    pub closed spec fn admitted(&self) -> Option<AlgorithmRegistration> {
        self.registration
    }

    /// A load that has not begun; the host is to resolve the path first.
    pub fn begin(host_rustc: &str, host_utils: &str) -> (loader: Loader)
        ensures
            loader.stage_of() is Resolving,
            loader.host_rustc_text() == host_rustc@,
            loader.host_utils_text() == host_utils@,
            loader.resolved_path() is None,
            loader.admitted() is None,
    {
        Loader {
            stage: LoadStage::Resolving,
            host_rustc: String::from_str(host_rustc),
            host_utils: String::from_str(host_utils),
            path: None,
            registration: None,
        }
    }

    /// The stage the load is in.
    pub fn stage(&self) -> (stage: LoadStage)
        ensures
            stage == self.stage_of(),
    {
        self.stage
    }

    /// Takes the host's report and says what to do next. A report that fits the
    /// stage and passes its checks moves the load one stage on; any other ends
    /// it, with the error to hand to the caller. The factory is asked for only
    /// after a descriptor has passed the version check and the bounds check.
    pub fn advance(self, event: LoadEvent) -> (next: (Loader, LoadAction))
        ensures
            next.0.host_rustc_text() == self.host_rustc_text(),
            next.0.host_utils_text() == self.host_utils_text(),
            match outcome(
                self.stage_of(),
                event,
                self.host_rustc_text(),
                self.host_utils_text(),
            ) {
                Ok(stage) => {
                    &&& next.0.stage_of() == stage
                    &&& action_entering(stage, next.1)
                    &&& next.0.resolved_path() == match event {
                        LoadEvent::PathResolved(path) => Some(path@),
                        _ => self.resolved_path(),
                    }
                    &&& next.0.admitted() == match event {
                        LoadEvent::DescriptorRead(registration) => Some(registration),
                        _ => self.admitted(),
                    }
                },
                Err(kind) => {
                    &&& next.0.stage_of() is Failed
                    &&& next.1 matches LoadAction::Abort(error)
                    &&& error.kind_of() == kind
                    &&& error.message() == failure_message(
                        self.stage_of(),
                        event,
                        self.host_rustc_text(),
                        self.host_utils_text(),
                    )
                },
            },
    {
        proof {
            use_type_invariant(&self);
        }
        let Loader { stage, host_rustc, host_utils, path, registration } = self;
        match stage {
            LoadStage::Resolving => match event {
                LoadEvent::PathResolved(resolved) => (
                    Loader {
                        stage: LoadStage::Opening,
                        host_rustc,
                        host_utils,
                        path: Some(resolved),
                        registration: None,
                    },
                    LoadAction::OpenLibrary,
                ),
                LoadEvent::PathUnresolved(text) => give_up(
                    host_rustc,
                    host_utils,
                    Error::new(text, ErrorKind::IO),
                ),
                _ => give_up(host_rustc, host_utils, out_of_turn()),
            },
            LoadStage::Opening => match event {
                LoadEvent::LibraryOpened => (
                    Loader {
                        stage: LoadStage::Reading,
                        host_rustc,
                        host_utils,
                        path,
                        registration: None,
                    },
                    LoadAction::ReadDescriptor,
                ),
                LoadEvent::LibraryRefused(text) => give_up(
                    host_rustc,
                    host_utils,
                    Error::new(text, ErrorKind::ModuleOpenFailed),
                ),
                _ => give_up(host_rustc, host_utils, out_of_turn()),
            },
            LoadStage::Reading => match event {
                LoadEvent::LibraryRefused(text) => give_up(
                    host_rustc,
                    host_utils,
                    Error::new(text, ErrorKind::ModuleOpenFailed),
                ),
                LoadEvent::Faulted => {
                    let text = String::from_str("The module faulted while its descriptor was read");
                    give_up(host_rustc, host_utils, Error::new(text, ErrorKind::ModuleFault))
                },
                LoadEvent::DescriptorRead(read) => {
                    if !(read.rustc_version == host_rustc && read.utils_version == host_utils) {
                        let text = mismatch_text(&read, host_rustc.as_str(), host_utils.as_str());
                        give_up(
                            host_rustc,
                            host_utils,
                            Error::new(text, ErrorKind::MisMatchedVersion),
                        )
                    } else if !check_data_lengths(read.min_data_length, read.max_data_length) {
                        let text = invalid_config_text(&read);
                        give_up(
                            host_rustc,
                            host_utils,
                            Error::new(text, ErrorKind::InvalidModuleConfig),
                        )
                    } else {
                        (
                            Loader {
                                stage: LoadStage::Instantiating,
                                host_rustc,
                                host_utils,
                                path,
                                registration: Some(read),
                            },
                            LoadAction::CreateInstance,
                        )
                    }
                },
                _ => give_up(host_rustc, host_utils, out_of_turn()),
            },
            LoadStage::Instantiating => match event {
                LoadEvent::InstanceCreated => (
                    Loader { stage: LoadStage::Loaded, host_rustc, host_utils, path, registration },
                    LoadAction::Finish,
                ),
                LoadEvent::Faulted => {
                    let text = String::from_str("The module faulted while its instance was made");
                    give_up(host_rustc, host_utils, Error::new(text, ErrorKind::ModuleFault))
                },
                _ => give_up(host_rustc, host_utils, out_of_turn()),
            },
            _ => give_up(host_rustc, host_utils, out_of_turn()),
        }
    }

    /// Bundles the instance that the factory returned into an algorithm, with
    /// the name, description and bounds of the admitted descriptor and the
    /// resolved path. Only a load that has reached `Loaded` yields one.
    pub fn finish<I>(self, instance: I) -> (loaded: Option<Algorithm<I>>)
        ensures
            loaded is Some <==> self.stage_of() is Loaded,
            loaded matches Some(algorithm) ==> {
                &&& self.admitted() matches Some(registration)
                &&& self.resolved_path() matches Some(path)
                &&& algorithm.name_text() == registration.name@
                &&& algorithm.description_text() == registration.description@
                &&& algorithm.min_length() == registration.min_data_length
                &&& algorithm.max_length() == registration.max_data_length
                &&& algorithm.path_text() == path
                &&& algorithm.held_instance() == instance
                &&& registration.versions_match(self.host_rustc_text(), self.host_utils_text())
                &&& registration.lengths_valid()
            },
    {
        proof {
            use_type_invariant(&self);
        }
        let Loader { stage, host_rustc, host_utils, path, registration } = self;
        match stage {
            LoadStage::Loaded => match (path, registration) {
                (Some(path), Some(registration)) => Some(
                    Algorithm::assemble(
                        registration.name,
                        registration.description,
                        registration.min_data_length,
                        registration.max_data_length,
                        path,
                        instance,
                    ),
                ),
                _ => None,
            },
            _ => None,
        }
    }
}

/// A descriptor whose toolchain version or library version differs from the
/// host's, in however little, ends the load with `MisMatchedVersion`, whatever
/// else it declares.
pub proof fn law_version_gate(
    registration: AlgorithmRegistration,
    host_rustc: Seq<char>,
    host_utils: Seq<char>,
)
    requires
        registration.rustc_version@ != host_rustc || registration.utils_version@ != host_utils,
    ensures
        outcome(
            LoadStage::Reading,
            LoadEvent::DescriptorRead(registration),
            host_rustc,
            host_utils,
        ) == Err::<LoadStage, ErrorKind>(ErrorKind::MisMatchedVersion),
{
}

/// The factory is asked for only when a descriptor has just been read and has
/// passed both checks. A load that has failed or finished asks for nothing more.
pub proof fn law_factory_guarded(
    stage: LoadStage,
    event: LoadEvent,
    host_rustc: Seq<char>,
    host_utils: Seq<char>,
)
    ensures
        outcome(stage, event, host_rustc, host_utils) == Ok::<LoadStage, ErrorKind>(
            LoadStage::Instantiating,
        ) ==> {
            &&& stage is Reading
            &&& event matches LoadEvent::DescriptorRead(registration)
            &&& registration.versions_match(host_rustc, host_utils)
            &&& registration.lengths_valid()
        },
        stage is Failed || stage is Loaded ==> outcome(stage, event, host_rustc, host_utils)
            == Err::<LoadStage, ErrorKind>(ErrorKind::Other),
{
}

/// A descriptor of the host's versions with a fixed minimum `n` and a fixed
/// maximum `m` above zero is admitted exactly when `m >= n`. With a maximum of
/// zero it is refused as `InvalidModuleConfig`, whatever the minimum.
pub proof fn law_bounds_gate(
    registration: AlgorithmRegistration,
    host_rustc: Seq<char>,
    host_utils: Seq<char>,
    n: usize,
    m: usize,
)
    requires
        registration.versions_match(host_rustc, host_utils),
        registration.min_data_length == DataLength::Fixed(n),
        registration.max_data_length == DataLength::Fixed(m),
    ensures
        m > 0 ==> (outcome(
            LoadStage::Reading,
            LoadEvent::DescriptorRead(registration),
            host_rustc,
            host_utils,
        ) == Ok::<LoadStage, ErrorKind>(LoadStage::Instantiating) <==> m >= n),
        m > 0 && m < n ==> outcome(
            LoadStage::Reading,
            LoadEvent::DescriptorRead(registration),
            host_rustc,
            host_utils,
        ) == Err::<LoadStage, ErrorKind>(ErrorKind::InvalidModuleConfig),
        m == 0 ==> outcome(
            LoadStage::Reading,
            LoadEvent::DescriptorRead(registration),
            host_rustc,
            host_utils,
        ) == Err::<LoadStage, ErrorKind>(ErrorKind::InvalidModuleConfig),
{
}

/// The loader that has given up, and the order to abort with `error`.
fn give_up(host_rustc: String, host_utils: String, error: Error<ErrorKind>) -> (next: (
    Loader,
    LoadAction,
))
    ensures
        next.0.stage_of() is Failed,
        next.0.host_rustc_text() == host_rustc@,
        next.0.host_utils_text() == host_utils@,
        next.1 == LoadAction::Abort(error),
{
    (
        Loader { stage: LoadStage::Failed, host_rustc, host_utils, path: None, registration: None },
        LoadAction::Abort(error),
    )
}

/// The error for a report that the stage did not ask for.
fn out_of_turn() -> (error: Error<ErrorKind>)
    ensures
        error.kind_of() == ErrorKind::Other,
        error.message() == "The loader was told of a step it had not asked for"@,
{
    Error::new(
        String::from_str("The loader was told of a step it had not asked for"),
        ErrorKind::Other,
    )
}

/// Writes [`mismatch_message`].
fn mismatch_text(registration: &AlgorithmRegistration, host_rustc: &str, host_utils: &str) -> (text:
    String)
    ensures
        text@ == mismatch_message(*registration, host_rustc@, host_utils@),
{
    let mut text = String::from_str("The algorithm `");
    text.append(registration.name.as_str());
    text.append("` has a mismatched version!\nAlgorithm version: [");
    text.append(registration.rustc_version.as_str());
    text.append("/");
    text.append(registration.utils_version.as_str());
    text.append("]\nUtils version: [");
    text.append(host_rustc);
    text.append("/");
    text.append(host_utils);
    text.append("]");
    text
}

/// Writes [`invalid_config_message`].
fn invalid_config_text(registration: &AlgorithmRegistration) -> (text: String)
    ensures
        text@ == invalid_config_message(*registration),
{
    let mut text = String::from_str("The algorithm `");
    text.append(registration.name.as_str());
    text.append("` is not configured correctly\n(min_data_length: ");
    let min = registration.min_data_length.to_text();
    text.append(min.as_str());
    text.append(", max_data_length: ");
    let max = registration.max_data_length.to_text();
    text.append(max.as_str());
    text.append(")");
    text
}

} // verus!
