//! The `package validate` and `package load` commands as a sequence of
//! decisions: after each outside step (validation, reading the recorded
//! state, the operator's answer, the import, the update) the flow says what
//! to print and what to do next, down to the process exit code.

use vstd::prelude::*;
use crate::domain::{
    ImageImportRecord, ImageImportStatus, ImageImportView, PackageManifest, ServiceStateRecord,
    UpdateAttemptRecord, UpdateAttemptView, ValidationRecord, ValidationRecordView,
    ValidationStatus,
};
use crate::report::{
    confirmation_lines, confirmation_text, exit_code_for_update_status, image_import_summary_lines,
    image_import_summary_text, update_exit_code, update_summary_lines, update_summary_text,
    validation_summary_lines, validation_summary_text,
};
use crate::text::{push_text, string_views};

verus! {

broadcast use vstd::string::group_string_axioms;

/// Where a package command stands.
#[derive(Debug, PartialEq, Eq)]
pub enum LoadStage {
    /// Waiting for the validation record.
    Validating,
    /// Waiting for the recorded state of the target service.
    ReadingState,
    /// Waiting for the operator's answer.
    Confirming,
    /// Waiting for the image-import record.
    Importing,
    /// Waiting for the update record.
    Updating,
    /// The command is over.
    Done,
}

/// A package command in progress.
#[derive(Debug)]
pub struct PackageLoad {
    /// `package load` (`true`) or `package validate` (`false`).
    pub load: bool,
    /// Whether the confirmation prompt is skipped (`--yes`).
    pub assume_yes: bool,
    /// The validated manifest, once known.
    pub manifest: Option<PackageManifest>,
    pub stage: LoadStage,
}

/// The result of an outside step.
#[derive(Debug)]
pub enum LoadEvent {
    Validated(ValidationRecord),
    StateRead(Option<ServiceStateRecord>),
    Answered(bool),
    Imported(ImageImportRecord),
    Updated(UpdateAttemptRecord),
}

/// What to do next; each action first prints its lines.
#[derive(Debug, PartialEq, Eq)]
pub enum LoadAction {
    /// Validate the package.
    Validate { lines: Vec<String> },
    /// Read the recorded state of the named service.
    ReadState { lines: Vec<String>, service: String },
    /// Print the confirmation prompt and read one answer.
    Ask { lines: Vec<String> },
    /// Import the validated image.
    Import { lines: Vec<String> },
    /// Apply the candidate release.
    Apply { lines: Vec<String>, candidate_release_id: u128 },
    /// End the command with this exit code.
    Exit { lines: Vec<String>, code: u8 },
    /// End the command with an internal error.
    Fail { lines: Vec<String>, message: String },
}

/// The plain value of a [`LoadEvent`].
pub enum LoadEventView {
    Validated(ValidationRecordView),
    StateRead(Option<ServiceStateRecord>),
    Answered(bool),
    Imported(ImageImportView),
    Updated(UpdateAttemptView),
}

impl View for LoadEvent {
    type V = LoadEventView;

    open spec fn view(&self) -> LoadEventView {
        match self {
            LoadEvent::Validated(r) => LoadEventView::Validated(r@),
            LoadEvent::StateRead(s) => LoadEventView::StateRead(*s),
            LoadEvent::Answered(b) => LoadEventView::Answered(*b),
            LoadEvent::Imported(r) => LoadEventView::Imported(r@),
            LoadEvent::Updated(r) => LoadEventView::Updated(r@),
        }
    }
}

/// The plain value of a [`LoadAction`].
pub enum LoadActionView {
    Validate(Seq<Seq<char>>),
    ReadState(Seq<Seq<char>>, Seq<char>),
    Ask(Seq<Seq<char>>),
    Import(Seq<Seq<char>>),
    Apply(Seq<Seq<char>>, u128),
    Exit(Seq<Seq<char>>, u8),
    Fail(Seq<Seq<char>>, Seq<char>),
}

impl View for LoadAction {
    type V = LoadActionView;

    open spec fn view(&self) -> LoadActionView {
        match self {
            LoadAction::Validate { lines } => LoadActionView::Validate(string_views(lines@)),
            LoadAction::ReadState { lines, service } => LoadActionView::ReadState(
                string_views(lines@),
                service@,
            ),
            LoadAction::Ask { lines } => LoadActionView::Ask(string_views(lines@)),
            LoadAction::Import { lines } => LoadActionView::Import(string_views(lines@)),
            LoadAction::Apply { lines, candidate_release_id } => LoadActionView::Apply(
                string_views(lines@),
                *candidate_release_id,
            ),
            LoadAction::Exit { lines, code } => LoadActionView::Exit(string_views(lines@), *code),
            LoadAction::Fail { lines, message } => LoadActionView::Fail(
                string_views(lines@),
                message@,
            ),
        }
    }
}

/// The message when an accepted validation record carries no manifest.
pub open spec fn missing_manifest_message() -> Seq<char> {
    "accepted validation record is missing the parsed package manifest"@
}

/// The message when a successful import carries no candidate release.
pub open spec fn missing_candidate_message() -> Seq<char> {
    "successful image import is missing the staged release identifier"@
}

/// Which event each stage waits for.
pub open spec fn event_fits(stage: LoadStage, e: LoadEventView) -> bool {
    match stage {
        LoadStage::Validating => e is Validated,
        LoadStage::ReadingState => e is StateRead,
        LoadStage::Confirming => e is Answered,
        LoadStage::Importing => e is Imported,
        LoadStage::Updating => e is Updated,
        LoadStage::Done => false,
    }
}

/// What a package command does after an event: the next stage, the manifest
/// it keeps, and the action.
pub open spec fn load_next(
    load: bool,
    assume_yes: bool,
    manifest: Option<PackageManifest>,
    stage: LoadStage,
    e: LoadEventView,
) -> (LoadStage, Option<PackageManifest>, LoadActionView) {
    match e {
        LoadEventView::Validated(r) => {
            let lines = validation_summary_text(r);
            if r.status == ValidationStatus::Rejected {
                (LoadStage::Done, manifest, LoadActionView::Exit(lines, 2))
            } else if !load {
                (LoadStage::Done, manifest, LoadActionView::Exit(lines, 0))
            } else {
                match r.manifest {
                    None => (LoadStage::Done, manifest, LoadActionView::Fail(lines, missing_manifest_message())),
                    Some(m) => (
                        LoadStage::ReadingState,
                        Some(m),
                        LoadActionView::ReadState(lines, m.target.service@),
                    ),
                }
            }
        },
        LoadEventView::StateRead(current) => if assume_yes {
            (LoadStage::Importing, manifest, LoadActionView::Import(seq!["Importing image into Docker..."@]))
        } else {
            (LoadStage::Confirming, manifest, LoadActionView::Ask(confirmation_text(manifest->0, current)))
        },
        LoadEventView::Answered(agreed) => if agreed {
            (LoadStage::Importing, manifest, LoadActionView::Import(seq!["Importing image into Docker..."@]))
        } else {
            (LoadStage::Done, manifest, LoadActionView::Exit(seq!["Cancelled before changing the service."@], 3))
        },
        LoadEventView::Imported(r) => {
            let lines = image_import_summary_text(r);
            if r.status == ImageImportStatus::Failed {
                (LoadStage::Done, manifest, LoadActionView::Exit(lines, 4))
            } else {
                match r.candidate_release_id {
                    None => (LoadStage::Done, manifest, LoadActionView::Fail(lines, missing_candidate_message())),
                    Some(id) => (
                        LoadStage::Updating,
                        manifest,
                        LoadActionView::Apply(lines.push("Applying update..."@), id),
                    ),
                }
            }
        },
        LoadEventView::Updated(a) => (
            LoadStage::Done,
            manifest,
            LoadActionView::Exit(update_summary_text(a), update_exit_code(a.status)),
        ),
    }
}

/// A well-formed command: past validation, a `package load` keeps its manifest.
pub open spec fn load_wf(load: bool, manifest: Option<PackageManifest>, stage: LoadStage) -> bool {
    match stage {
        LoadStage::ReadingState | LoadStage::Confirming | LoadStage::Importing
        | LoadStage::Updating => load && manifest is Some,
        _ => true,
    }
}

fn single_line(text: &str) -> (v: Vec<String>)
    ensures
        string_views(v@) == seq![text@],
{
    let mut v: Vec<String> = Vec::new();
    push_text(&mut v, String::from_str(text));
    assert(string_views(v@) =~= seq![text@]);
    v
}

impl PackageLoad {
    /// The well-formedness of this command.
    pub open spec fn wf(&self) -> bool {
        load_wf(self.load, self.manifest, self.stage)
    }

    /// Starts `package validate` (`load` false) or `package load`.
    pub fn start(load: bool, assume_yes: bool) -> (r: (PackageLoad, LoadAction))
        ensures
            r.0.load == load,
            r.0.assume_yes == assume_yes,
            r.0.manifest is None,
            r.0.stage == LoadStage::Validating,
            r.0.wf(),
            r.1@ == LoadActionView::Validate(seq!["Validating package..."@]),
    {
        (
            PackageLoad { load, assume_yes, manifest: None, stage: LoadStage::Validating },
            LoadAction::Validate { lines: single_line("Validating package...") },
        )
    }

    /// Whether an event is the one the command waits for.
    pub fn fits(&self, e: &LoadEvent) -> (b: bool)
        ensures
            b == event_fits(self.stage, e@),
    {
        match self.stage {
            LoadStage::Validating => matches!(e, LoadEvent::Validated(_)),
            LoadStage::ReadingState => matches!(e, LoadEvent::StateRead(_)),
            LoadStage::Confirming => matches!(e, LoadEvent::Answered(_)),
            LoadStage::Importing => matches!(e, LoadEvent::Imported(_)),
            LoadStage::Updating => matches!(e, LoadEvent::Updated(_)),
            LoadStage::Done => false,
        }
    }

    /// Takes the result of the step the command waited for and says what to
    /// print and do next.
    pub fn advance(&mut self, e: LoadEvent) -> (a: LoadAction)
        requires
            old(self).wf(),
            event_fits(old(self).stage, e@),
        ensures
            final(self).wf(),
            final(self).load == old(self).load,
            final(self).assume_yes == old(self).assume_yes,
            (final(self).stage, final(self).manifest, a@) == load_next(
                old(self).load,
                old(self).assume_yes,
                old(self).manifest,
                old(self).stage,
                e@,
            ),
    {
        match e {
            LoadEvent::Validated(record) => {
                let lines = validation_summary_lines(&record);
                if record.status == ValidationStatus::Rejected {
                    self.stage = LoadStage::Done;
                    LoadAction::Exit { lines, code: 2 }
                } else if !self.load {
                    self.stage = LoadStage::Done;
                    LoadAction::Exit { lines, code: 0 }
                } else {
                    match record.manifest {
                        None => {
                            self.stage = LoadStage::Done;
                            LoadAction::Fail {
                                lines,
                                message: String::from_str(
                                    "accepted validation record is missing the parsed package manifest",
                                ),
                            }
                        },
                        Some(m) => {
                            let service = m.target.service.clone();
                            self.manifest = Some(m);
                            self.stage = LoadStage::ReadingState;
                            LoadAction::ReadState { lines, service }
                        },
                    }
                }
            },
            LoadEvent::StateRead(current) => {
                if self.assume_yes {
                    self.stage = LoadStage::Importing;
                    LoadAction::Import { lines: single_line("Importing image into Docker...") }
                } else {
                    let lines = match &self.manifest {
                        Some(m) => confirmation_lines(m, current.as_ref()),
                        None => Vec::new(),
                    };
                    self.stage = LoadStage::Confirming;
                    LoadAction::Ask { lines }
                }
            },
            LoadEvent::Answered(agreed) => {
                if agreed {
                    self.stage = LoadStage::Importing;
                    LoadAction::Import { lines: single_line("Importing image into Docker...") }
                } else {
                    self.stage = LoadStage::Done;
                    LoadAction::Exit {
                        lines: single_line("Cancelled before changing the service."),
                        code: 3,
                    }
                }
            },
            LoadEvent::Imported(record) => {
                let mut lines = image_import_summary_lines(&record);
                if record.status == ImageImportStatus::Failed {
                    self.stage = LoadStage::Done;
                    LoadAction::Exit { lines, code: 4 }
                } else {
                    match record.candidate_release_id {
                        None => {
                            self.stage = LoadStage::Done;
                            LoadAction::Fail {
                                lines,
                                message: String::from_str(
                                    "successful image import is missing the staged release identifier",
                                ),
                            }
                        },
                        Some(id) => {
                            push_text(&mut lines, String::from_str("Applying update..."));
                            self.stage = LoadStage::Updating;
                            LoadAction::Apply { lines, candidate_release_id: id }
                        },
                    }
                }
            },
            LoadEvent::Updated(record) => {
                let lines = update_summary_lines(&record);
                self.stage = LoadStage::Done;
                LoadAction::Exit { lines, code: exit_code_for_update_status(record.status) }
            },
        }
    }
}


/// Whether an action changes the service or its images.
pub open spec fn changes_service(a: LoadActionView) -> bool {
    a is Import || a is Apply
}

/// `package validate` is read-only with respect to services: whatever comes
/// back from validation, the command never imports an image or applies an update.
pub proof fn law_validate_is_read_only(
    manifest: Option<PackageManifest>,
    assume_yes: bool,
    stage: LoadStage,
    e: LoadEventView,
)
    requires
        load_wf(false, manifest, stage),
        event_fits(stage, e),
    ensures
        !changes_service(load_next(false, assume_yes, manifest, stage, e).2),
        load_next(false, assume_yes, manifest, stage, e).0 == LoadStage::Done,
{
}

/// With `--yes` the operator is never asked for confirmation.
pub proof fn law_yes_skips_prompt(
    load: bool,
    manifest: Option<PackageManifest>,
    stage: LoadStage,
    e: LoadEventView,
)
    requires
        load_wf(load, manifest, stage),
        event_fits(stage, e),
    ensures
        !(load_next(load, true, manifest, stage, e).2 is Ask),
{
}

/// The image is imported only once the operator agreed or `--yes` was given,
/// and only after an accepted validation.
pub proof fn law_import_needs_consent(
    load: bool,
    assume_yes: bool,
    manifest: Option<PackageManifest>,
    stage: LoadStage,
    e: LoadEventView,
)
    requires
        load_wf(load, manifest, stage),
        event_fits(stage, e),
        load_next(load, assume_yes, manifest, stage, e).2 is Import,
    ensures
        (e is StateRead && assume_yes) || e == LoadEventView::Answered(true),
{
}

/// A rejected package ends the command with exit code 2 before anything is
/// imported; a declined prompt ends it with exit code 3.
pub proof fn law_rejection_and_decline_stop_early(
    load: bool,
    assume_yes: bool,
    manifest: Option<PackageManifest>,
    r: ValidationRecordView,
)
    requires
        r.status == ValidationStatus::Rejected,
    ensures
        load_next(load, assume_yes, manifest, LoadStage::Validating, LoadEventView::Validated(r)).2
            == LoadActionView::Exit(validation_summary_text(r), 2),
        load_next(load, assume_yes, manifest, LoadStage::Confirming, LoadEventView::Answered(false)).2
            == LoadActionView::Exit(seq!["Cancelled before changing the service."@], 3),
{
}

/// A `package load` exits with 0 exactly when the update succeeded.
pub proof fn law_success_exit_code(
    load: bool,
    assume_yes: bool,
    manifest: Option<PackageManifest>,
    a: UpdateAttemptView,
)
    ensures
        (load_next(load, assume_yes, manifest, LoadStage::Updating, LoadEventView::Updated(a)).2
            == LoadActionView::Exit(update_summary_text(a), 0)) <==> a.status
            == crate::domain::UpdateAttemptStatus::Succeeded,
{
}

} // verus!
