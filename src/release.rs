use vstd::prelude::*;

use crate::catalog::selected;
use crate::lookup::{tag_of, versions_of, views, MetadataView, WorkspaceMetadata, VersionLookup};

verus! {

/// How a run treats each package.
#[derive(Clone, Copy, PartialEq, Eq, Structural, Debug)]
pub struct Options {
    /// Ask nothing, and publish for real rather than as a dry run.
    pub confirm_all: bool,
    /// Create and push the release tag instead of publishing.
    pub tag_only: bool,
}

/// A version control or registry command, run in the package's directory.
#[derive(PartialEq, Eq, Debug)]
pub enum Command {
    /// Create a local tag at the current commit.
    CreateTag { tag: String },
    /// Push a tag to the remote `origin`.
    PushTag { tag: String },
    /// Delete the tag's reference on the remote `origin`.
    DeleteRemoteTag { tag: String },
    /// Create a local tag at the current commit, replacing one of that name.
    ForceTag { tag: String },
    /// Publish the package to the registry, or only check it in a dry run.
    Publish { package: String, dry_run: bool },
}

pub enum CommandView {
    CreateTag { tag: Seq<char> },
    PushTag { tag: Seq<char> },
    DeleteRemoteTag { tag: Seq<char> },
    ForceTag { tag: Seq<char> },
    Publish { package: Seq<char>, dry_run: bool },
}

impl View for Command {
    type V = CommandView;

    open spec fn view(&self) -> CommandView {
        match self {
            Command::CreateTag { tag } => CommandView::CreateTag { tag: tag@ },
            Command::PushTag { tag } => CommandView::PushTag { tag: tag@ },
            Command::DeleteRemoteTag { tag } => CommandView::DeleteRemoteTag { tag: tag@ },
            Command::ForceTag { tag } => CommandView::ForceTag { tag: tag@ },
            Command::Publish { package, dry_run } => CommandView::Publish {
                package: package@,
                dry_run: *dry_run,
            },
        }
    }
}

impl Command {
    pub fn duplicate(&self) -> (r: Command)
        ensures
            r@ == self@,
    {
        match self {
            Command::CreateTag { tag } => Command::CreateTag { tag: tag.clone() },
            Command::PushTag { tag } => Command::PushTag { tag: tag.clone() },
            Command::DeleteRemoteTag { tag } => Command::DeleteRemoteTag { tag: tag.clone() },
            Command::ForceTag { tag } => Command::ForceTag { tag: tag.clone() },
            Command::Publish { package, dry_run } => Command::Publish {
                package: package.clone(),
                dry_run: *dry_run,
            },
        }
    }
}

/// The command changes a tag, locally or on the remote.
pub open spec fn is_tag_mutation(c: CommandView) -> bool {
    !(c is Publish)
}

/// Why a run stopped.
#[derive(PartialEq, Eq, Debug)]
pub enum ReleaseError {
    /// Releasing needs exactly one workspace root.
    WorkspaceCount { count: usize },
    /// The workspace metadata could not be read.
    Metadata { message: String },
    /// A workspace member has no package record in the metadata.
    MissingRecord { member: String },
    /// A package to release has no version in the workspace.
    UnknownPackage { package: String },
    /// The confirmation prompt failed.
    Prompt { message: String },
    /// A command exited with a failure.
    Command { command: Command, message: String },
}

pub enum ErrorView {
    WorkspaceCount { count: nat },
    Metadata { message: Seq<char> },
    MissingRecord { member: Seq<char> },
    UnknownPackage { package: Seq<char> },
    Prompt { message: Seq<char> },
    Command { command: CommandView, message: Seq<char> },
}

impl View for ReleaseError {
    type V = ErrorView;

    open spec fn view(&self) -> ErrorView {
        match self {
            ReleaseError::WorkspaceCount { count } => ErrorView::WorkspaceCount {
                count: *count as nat,
            },
            ReleaseError::Metadata { message } => ErrorView::Metadata { message: message@ },
            ReleaseError::MissingRecord { member } => ErrorView::MissingRecord { member: member@ },
            ReleaseError::UnknownPackage { package } => ErrorView::UnknownPackage {
                package: package@,
            },
            ReleaseError::Prompt { message } => ErrorView::Prompt { message: message@ },
            ReleaseError::Command { command, message } => ErrorView::Command {
                command: command@,
                message: message@,
            },
        }
    }
}

impl ReleaseError {
    pub fn duplicate(&self) -> (r: ReleaseError)
        ensures
            r@ == self@,
    {
        match self {
            ReleaseError::WorkspaceCount { count } => ReleaseError::WorkspaceCount { count: *count },
            ReleaseError::Metadata { message } => ReleaseError::Metadata { message: message.clone() },
            ReleaseError::MissingRecord { member } => ReleaseError::MissingRecord {
                member: member.clone(),
            },
            ReleaseError::UnknownPackage { package } => ReleaseError::UnknownPackage {
                package: package.clone(),
            },
            ReleaseError::Prompt { message } => ReleaseError::Prompt { message: message.clone() },
            ReleaseError::Command { command, message } => ReleaseError::Command {
                command: command.duplicate(),
                message: message.clone(),
            },
        }
    }
}

/// What the caller is to do next.
#[derive(PartialEq, Eq, Debug)]
pub enum Action {
    /// Read the metadata of the workspace root; answered by `Event::Metadata`.
    ReadMetadata,
    /// Ask the user this yes/no question; answered by `Event::Answer`.
    Confirm { prompt: String },
    /// Print this line; answered by `Event::Done`.
    Say { line: String },
    /// Make the package's directory the working directory, keeping the one
    /// before it to come back to; answered by `Event::Done`.
    EnterDir { package: String },
    /// Run this command; answered by `Event::Outcome`.
    Run { command: Command },
    /// Go back to the working directory kept by the last `EnterDir`; answered
    /// by `Event::Done`.
    LeaveDir,
    /// The run is over, with this outcome.
    Finish { outcome: Result<(), ReleaseError> },
}

pub enum ActionView {
    ReadMetadata,
    Confirm { prompt: Seq<char> },
    Say { line: Seq<char> },
    EnterDir { package: Seq<char> },
    Run { command: CommandView },
    LeaveDir,
    Finish { outcome: Result<(), ErrorView> },
}

impl View for Action {
    type V = ActionView;

    open spec fn view(&self) -> ActionView {
        match self {
            Action::ReadMetadata => ActionView::ReadMetadata,
            Action::Confirm { prompt } => ActionView::Confirm { prompt: prompt@ },
            Action::Say { line } => ActionView::Say { line: line@ },
            Action::EnterDir { package } => ActionView::EnterDir { package: package@ },
            Action::Run { command } => ActionView::Run { command: command@ },
            Action::LeaveDir => ActionView::LeaveDir,
            Action::Finish { outcome } => ActionView::Finish {
                outcome: match outcome {
                    Ok(()) => Ok(()),
                    Err(e) => Err(e@),
                },
            },
        }
    }
}

/// What came of an action.
pub enum Event {
    Metadata { result: Result<WorkspaceMetadata, String> },
    Answer { result: Result<bool, String> },
    Outcome { result: Result<(), String> },
    Done,
}

pub enum EventView {
    Metadata { result: Result<MetadataView, Seq<char>> },
    Answer { result: Result<bool, Seq<char>> },
    Outcome { result: Result<(), Seq<char>> },
    Done,
}

impl View for Event {
    type V = EventView;

    open spec fn view(&self) -> EventView {
        match self {
            Event::Metadata { result } => EventView::Metadata {
                result: match result {
                    Ok(m) => Ok(m@),
                    Err(e) => Err(e@),
                },
            },
            Event::Answer { result } => EventView::Answer {
                result: match result {
                    Ok(b) => Ok(*b),
                    Err(e) => Err(e@),
                },
            },
            Event::Outcome { result } => EventView::Outcome {
                result: match result {
                    Ok(()) => Ok(()),
                    Err(e) => Err(e@),
                },
            },
            Event::Done => EventView::Done,
        }
    }
}

/// Where a run stands.
pub enum StageView {
    ReadMetadata,
    Confirm,
    Declined { line: nat },
    Enter,
    Announce,
    Exec { step: nat },
    Separator,
    Leave { error: Option<ErrorView> },
    Failed { error: ErrorView },
    Finished,
}

pub struct ReleaseView {
    pub options: Options,
    pub packages: Seq<Seq<char>>,
    pub lookup: Map<Seq<char>, Seq<char>>,
    pub index: nat,
    pub stage: StageView,
}

/// The commands that release `package` under `tag`.
pub open spec fn commands_for(package: Seq<char>, tag: Seq<char>, options: Options) -> Seq<
    CommandView,
> {
    if options.tag_only {
        seq![CommandView::CreateTag { tag }, CommandView::PushTag { tag }]
    } else if options.confirm_all {
        seq![
            CommandView::Publish { package, dry_run: false },
            CommandView::DeleteRemoteTag { tag },
            CommandView::ForceTag { tag },
            CommandView::PushTag { tag },
        ]
    } else {
        seq![CommandView::Publish { package, dry_run: true }]
    }
}

pub open spec fn current(s: ReleaseView) -> Seq<char> {
    s.packages[s.index as int]
}

pub open spec fn current_tag(s: ReleaseView) -> Seq<char> {
    tag_of(current(s), s.lookup[current(s)])
}

pub open spec fn current_commands(s: ReleaseView) -> Seq<CommandView> {
    commands_for(current(s), current_tag(s), s.options)
}

/// The stage deals with the current package.
pub open spec fn is_active(st: StageView) -> bool {
    match st {
        StageView::Confirm | StageView::Declined { .. } | StageView::Enter | StageView::Announce
        | StageView::Exec { .. } | StageView::Separator | StageView::Leave { .. } => true,
        _ => false,
    }
}

/// The working directory is the current package's.
pub open spec fn in_package_dir(st: StageView) -> bool {
    match st {
        StageView::Announce | StageView::Exec { .. } | StageView::Separator
        | StageView::Leave { .. } => true,
        _ => false,
    }
}

/// How many directories the run has entered and not yet left.
pub open spec fn dir_depth(s: ReleaseView) -> int {
    if in_package_dir(s.stage) {
        1
    } else {
        0
    }
}

/// The stage stops the run for good.
pub open spec fn is_terminal(st: StageView) -> bool {
    st is Failed || st is Finished
}

/// The run has read the metadata and goes through the packages.
pub open spec fn in_loop(s: ReleaseView) -> bool {
    match s.stage {
        StageView::ReadMetadata => false,
        StageView::Failed { error } => !(error is WorkspaceCount || error is Metadata
            || error is MissingRecord),
        _ => true,
    }
}

/// The states that a run can be in.
pub open spec fn valid(s: ReleaseView) -> bool {
    &&& s.index <= s.packages.len()
    &&& is_active(s.stage) ==> s.index < s.packages.len() && s.lookup.contains_key(current(s))
    &&& s.stage matches StageView::Declined { line } ==> line < 2
    &&& s.stage matches StageView::Exec { step } ==> step < current_commands(s).len()
    &&& s.stage is ReadMetadata ==> s.index == 0
    &&& s.stage matches StageView::Leave { error: Some(e) } ==> e is Command
    &&& s.stage is Finished ==> s.index == s.packages.len()
    &&& s.stage matches StageView::Failed { error } ==> match error {
        ErrorView::UnknownPackage { package } => s.index < s.packages.len() && package == current(
            s,
        ) && !s.lookup.contains_key(current(s)),
        ErrorView::Prompt { .. } | ErrorView::Command { .. } => s.index < s.packages.len()
            && s.lookup.contains_key(current(s)),
        _ => true,
    }
}

/// The state of a run that starts with `workspaces` workspace roots.
pub open spec fn initial(workspaces: nat, requested: Seq<Seq<char>>, options: Options) -> ReleaseView {
    ReleaseView {
        options,
        packages: selected(requested),
        lookup: Map::empty(),
        index: 0,
        stage: if workspaces == 1 {
            StageView::ReadMetadata
        } else {
            StageView::Failed { error: ErrorView::WorkspaceCount { count: workspaces } }
        },
    }
}

/// The state in which the run takes up the package at `i`: it stops at the
/// end of the list, and at a package without a version; it asks first unless
/// told to confirm all.
pub open spec fn begin(s: ReleaseView, i: nat) -> ReleaseView {
    let t = ReleaseView { index: i, ..s };
    ReleaseView {
        stage: if i >= s.packages.len() {
            StageView::Finished
        } else if !s.lookup.contains_key(s.packages[i as int]) {
            StageView::Failed { error: ErrorView::UnknownPackage { package: s.packages[i as int] } }
        } else if s.options.confirm_all {
            StageView::Enter
        } else {
            StageView::Confirm
        },
        ..t
    }
}

pub open spec fn with_stage(s: ReleaseView, stage: StageView) -> ReleaseView {
    ReleaseView { stage, ..s }
}

/// The line printed before the commands of the current package.
pub open spec fn announcement(s: ReleaseView) -> Seq<char> {
    if s.options.tag_only {
        "Creating tag "@ + current_tag(s) + "..."@
    } else {
        "Publishing "@ + current_tag(s) + "..."@
    }
}

/// The action pending in a state.
pub open spec fn action_of(s: ReleaseView) -> ActionView {
    match s.stage {
        StageView::ReadMetadata => ActionView::ReadMetadata,
        StageView::Confirm => ActionView::Confirm { prompt: "Publish "@ + current_tag(s) + "?"@ },
        StageView::Declined { line } => ActionView::Say {
            line: if line == 0 {
                current(s) + " aborted"@
            } else {
                Seq::empty()
            },
        },
        StageView::Enter => ActionView::EnterDir { package: current(s) },
        StageView::Announce => ActionView::Say { line: announcement(s) },
        StageView::Exec { step } => ActionView::Run { command: current_commands(s)[step as int] },
        StageView::Separator => ActionView::Say { line: Seq::empty() },
        StageView::Leave { .. } => ActionView::LeaveDir,
        StageView::Failed { error } => ActionView::Finish { outcome: Err(error) },
        StageView::Finished => ActionView::Finish { outcome: Ok(()) },
    }
}

/// The state after an event. An event that does not answer the pending
/// action leaves the state as it is.
pub open spec fn next(s: ReleaseView, e: EventView) -> ReleaseView {
    match (s.stage, e) {
        (StageView::ReadMetadata, EventView::Metadata { result }) => match result {
            Err(message) => with_stage(s, StageView::Failed { error: ErrorView::Metadata { message } }),
            Ok(meta) => match versions_of(meta) {
                Err(member) => with_stage(
                    s,
                    StageView::Failed { error: ErrorView::MissingRecord { member } },
                ),
                Ok(lookup) => begin(ReleaseView { lookup, ..s }, 0),
            },
        },
        (StageView::Confirm, EventView::Answer { result }) => match result {
            Err(message) => with_stage(s, StageView::Failed { error: ErrorView::Prompt { message } }),
            Ok(true) => with_stage(s, StageView::Enter),
            Ok(false) => with_stage(s, StageView::Declined { line: 0 }),
        },
        (StageView::Declined { line }, EventView::Done) => if line == 0 {
            with_stage(s, StageView::Declined { line: 1 })
        } else {
            begin(s, s.index + 1)
        },
        (StageView::Enter, EventView::Done) => with_stage(s, StageView::Announce),
        (StageView::Announce, EventView::Done) => with_stage(s, StageView::Exec { step: 0 }),
        (StageView::Exec { step }, EventView::Outcome { result }) => match result {
            Err(message) => with_stage(
                s,
                StageView::Leave {
                    error: Some(
                        ErrorView::Command { command: current_commands(s)[step as int], message },
                    ),
                },
            ),
            Ok(()) => if step + 1 < current_commands(s).len() {
                with_stage(s, StageView::Exec { step: step + 1 })
            } else {
                with_stage(s, StageView::Separator)
            },
        },
        (StageView::Separator, EventView::Done) => with_stage(s, StageView::Leave { error: None }),
        (StageView::Leave { error }, EventView::Done) => match error {
            Some(error) => with_stage(s, StageView::Failed { error }),
            None => begin(s, s.index + 1),
        },
        _ => s,
    }
}

pub open spec fn command_views(v: Seq<Command>) -> Seq<CommandView> {
    v.map_values(|c: Command| c@)
}

fn make_commands(package: &String, tag: &String, options: Options) -> (r: Vec<Command>)
    ensures
        command_views(r@) == commands_for(package@, tag@, options),
{
    let mut r: Vec<Command> = Vec::new();
    if options.tag_only {
        r.push(Command::CreateTag { tag: tag.clone() });
        r.push(Command::PushTag { tag: tag.clone() });
    } else if options.confirm_all {
        r.push(Command::Publish { package: package.clone(), dry_run: false });
        r.push(Command::DeleteRemoteTag { tag: tag.clone() });
        r.push(Command::ForceTag { tag: tag.clone() });
        r.push(Command::PushTag { tag: tag.clone() });
    } else {
        r.push(Command::Publish { package: package.clone(), dry_run: true });
    }
    assert(command_views(r@) =~= commands_for(package@, tag@, options));
    r
}

enum Stage {
    ReadMetadata,
    Confirm,
    Declined { line: usize },
    Enter,
    Announce,
    Exec { step: usize },
    Separator,
    Leave { error: Option<ReleaseError> },
    Failed { error: ReleaseError },
    Finished,
}

impl View for Stage {
    type V = StageView;

    closed spec fn view(&self) -> StageView {
        match self {
            Stage::ReadMetadata => StageView::ReadMetadata,
            Stage::Confirm => StageView::Confirm,
            Stage::Declined { line } => StageView::Declined { line: *line as nat },
            Stage::Enter => StageView::Enter,
            Stage::Announce => StageView::Announce,
            Stage::Exec { step } => StageView::Exec { step: *step as nat },
            Stage::Separator => StageView::Separator,
            Stage::Leave { error } => StageView::Leave {
                error: match error {
                    Some(e) => Some(e@),
                    None => None,
                },
            },
            Stage::Failed { error } => StageView::Failed { error: error@ },
            Stage::Finished => StageView::Finished,
        }
    }
}

/// A release run over a list of packages.
pub struct Release {
    options: Options,
    packages: Vec<String>,
    lookup: VersionLookup,
    index: usize,
    tag: String,
    commands: Vec<Command>,
    stage: Stage,
}

impl View for Release {
    type V = ReleaseView;

    closed spec fn view(&self) -> ReleaseView {
        ReleaseView {
            options: self.options,
            packages: views(self.packages@),
            lookup: self.lookup@,
            index: self.index as nat,
            stage: self.stage@,
        }
    }
}

impl Release {
    pub closed spec fn wf(&self) -> bool {
        &&& self.lookup.wf()
        &&& valid(self@)
        &&& is_active(self@.stage) ==> self.tag@ == current_tag(self@) && command_views(
            self.commands@,
        ) == current_commands(self@)
    }

    /// A well-formed run stands in a valid state.
    pub proof fn lemma_valid(&self)
        requires
            self.wf(),
        ensures
            valid(self@),
    {
    }

    /// A run over `requested`, or over the catalog where it is empty, from a
    /// setup with `workspaces` workspace roots.
    pub fn new(workspaces: usize, requested: Vec<String>, options: Options) -> (r: Release)
        ensures
            r.wf(),
            r@ == initial(workspaces as nat, views(requested@), options),
    {
        let packages = crate::catalog::select_packages(requested);
        let stage = if workspaces == 1 {
            Stage::ReadMetadata
        } else {
            Stage::Failed { error: ReleaseError::WorkspaceCount { count: workspaces } }
        };
        Release {
            options,
            packages,
            lookup: VersionLookup::new(),
            index: 0,
            tag: String::new(),
            commands: Vec::new(),
            stage,
        }
    }

    fn begin(&mut self, i: usize)
        requires
            old(self).lookup.wf(),
            i <= old(self).packages@.len(),
            old(self)@.stage is ReadMetadata || is_active(old(self)@.stage),
        ensures
            final(self).wf(),
            final(self)@ == begin(old(self)@, i as nat),
    {
        self.index = i;
        if i >= self.packages.len() {
            self.stage = Stage::Finished;
            return ;
        }
        match self.lookup.get(&self.packages[i]) {
            None => {
                self.stage = Stage::Failed {
                    error: ReleaseError::UnknownPackage { package: self.packages[i].clone() },
                };
            },
            Some(version) => {
                let tag = crate::lookup::tag_name(self.packages[i].as_str(), version.as_str());
                self.commands = make_commands(&self.packages[i], &tag, self.options);
                self.tag = tag;
                if self.options.confirm_all {
                    self.stage = Stage::Enter;
                } else {
                    self.stage = Stage::Confirm;
                }
            },
        }
    }

    /// The action pending.
    pub fn action(&self) -> (r: Action)
        requires
            self.wf(),
        ensures
            r@ == action_of(self@),
    {
        match &self.stage {
            Stage::ReadMetadata => Action::ReadMetadata,
            Stage::Confirm => {
                let mut prompt = String::from_str("Publish ");
                prompt.append(self.tag.as_str());
                prompt.append("?");
                Action::Confirm { prompt }
            },
            Stage::Declined { line } => {
                if *line == 0 {
                    let mut text = self.packages[self.index].clone();
                    text.append(" aborted");
                    Action::Say { line: text }
                } else {
                    Action::Say { line: String::new() }
                }
            },
            Stage::Enter => Action::EnterDir { package: self.packages[self.index].clone() },
            Stage::Announce => {
                let mut text = if self.options.tag_only {
                    String::from_str("Creating tag ")
                } else {
                    String::from_str("Publishing ")
                };
                text.append(self.tag.as_str());
                text.append("...");
                Action::Say { line: text }
            },
            Stage::Exec { step } => Action::Run { command: self.commands[*step].duplicate() },
            Stage::Separator => Action::Say { line: String::new() },
            Stage::Leave { .. } => Action::LeaveDir,
            Stage::Failed { error } => Action::Finish { outcome: Err(error.duplicate()) },
            Stage::Finished => Action::Finish { outcome: Ok(()) },
        }
    }

    /// Takes in what came of the pending action.
    pub fn step(&mut self, event: Event)
        requires
            old(self).wf(),
        ensures
            final(self).wf(),
            final(self)@ == next(old(self)@, event@),
    {
        match event {
            Event::Metadata { .. } => self.on_metadata(event),
            Event::Answer { .. } => self.on_answer(event),
            Event::Outcome { .. } => self.on_outcome(event),
            Event::Done => self.on_done(),
        }
    }

    fn on_metadata(&mut self, event: Event)
        requires
            old(self).wf(),
            event is Metadata,
        ensures
            final(self).wf(),
            final(self)@ == next(old(self)@, event@),
    {
        if let Event::Metadata { result } = event {
            if matches!(self.stage, Stage::ReadMetadata) {
                match result {
                    Err(message) => {
                        self.stage = Stage::Failed { error: ReleaseError::Metadata { message } };
                    },
                    Ok(meta) => match crate::lookup::versions(&meta) {
                        Err(member) => {
                            self.stage = Stage::Failed {
                                error: ReleaseError::MissingRecord { member },
                            };
                        },
                        Ok(lookup) => {
                            self.lookup = lookup;
                            self.begin(0);
                        },
                    },
                }
            }
        }
    }

    fn on_answer(&mut self, event: Event)
        requires
            old(self).wf(),
            event is Answer,
        ensures
            final(self).wf(),
            final(self)@ == next(old(self)@, event@),
    {
        if let Event::Answer { result } = event {
            if matches!(self.stage, Stage::Confirm) {
                match result {
                    Err(message) => {
                        self.stage = Stage::Failed { error: ReleaseError::Prompt { message } };
                    },
                    Ok(true) => {
                        self.stage = Stage::Enter;
                    },
                    Ok(false) => {
                        self.stage = Stage::Declined { line: 0 };
                    },
                }
            }
        }
    }

    fn on_outcome(&mut self, event: Event)
        requires
            old(self).wf(),
            event is Outcome,
        ensures
            final(self).wf(),
            final(self)@ == next(old(self)@, event@),
    {
        assert(command_views(self.commands@).len() == self.commands@.len());
        if let Event::Outcome { result } = event {
            if let Stage::Exec { step } = self.stage {
                match result {
                    Err(message) => {
                        let command = self.commands[step].duplicate();
                        self.stage = Stage::Leave {
                            error: Some(ReleaseError::Command { command, message }),
                        };
                    },
                    Ok(()) => {
                        if step + 1 < self.commands.len() {
                            self.stage = Stage::Exec { step: step + 1 };
                        } else {
                            self.stage = Stage::Separator;
                        }
                    },
                }
            }
        }
    }

    fn on_done(&mut self)
        requires
            old(self).wf(),
        ensures
            final(self).wf(),
            final(self)@ == next(old(self)@, EventView::Done),
    {
        assert(views(self.packages@).len() == self.packages@.len());
        match &self.stage {
            Stage::Declined { line } => {
                if *line == 0 {
                    self.stage = Stage::Declined { line: 1 };
                } else {
                    assert(is_active(self@.stage));
                    assert(self.index < self.packages.len());
                    self.begin(self.index + 1);
                }
            },
            Stage::Enter => {
                self.stage = Stage::Announce;
            },
            Stage::Announce => {
                self.stage = Stage::Exec { step: 0 };
            },
            Stage::Separator => {
                self.stage = Stage::Leave { error: None };
            },
            Stage::Leave { error } => match error {
                Some(e) => {
                    let error = e.duplicate();
                    self.stage = Stage::Failed { error };
                },
                None => {
                    assert(is_active(self@.stage));
                    assert(self.index < self.packages.len());
                    self.begin(self.index + 1);
                },
            },
            _ => {},
        }
    }
}

} // verus!
