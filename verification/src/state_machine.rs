//! The persisted stages of the installation pipeline, their total order, and
//! the machine that walks them.
//!
//! The machine never touches the disk. It keeps, beside the current stage,
//! the stage that the state file has to hold; the caller writes that file
//! after every call that changes it and deletes it when it becomes `None`.

use vstd::prelude::*;

use crate::clock::utc_timestamp;
use crate::json::{json_object_text, json_text_member, read_text_member, write_text_object};
use crate::paths::LocalPath;
use crate::text::{opt_text, str_eq};

verus! {

/// One discrete, persisted step of the installation pipeline.
#[derive(Debug, Clone, Copy, PartialEq, Eq, Structural)]
pub enum LauncherState {
    Init,
    SelfUpdate,
    DependencyAudit,
    Sync,
    Build,
    Launch,
    Complete,
    Failed,
}

/// The stage that a name in the state file stands for.
pub open spec fn stage_named(name: Seq<char>) -> Option<LauncherState> {
    if name == "Init"@ {
        Some(LauncherState::Init)
    } else if name == "SelfUpdate"@ {
        Some(LauncherState::SelfUpdate)
    } else if name == "DependencyAudit"@ {
        Some(LauncherState::DependencyAudit)
    } else if name == "Sync"@ {
        Some(LauncherState::Sync)
    } else if name == "Build"@ {
        Some(LauncherState::Build)
    } else if name == "Launch"@ {
        Some(LauncherState::Launch)
    } else if name == "Complete"@ {
        Some(LauncherState::Complete)
    } else if name == "Failed"@ {
        Some(LauncherState::Failed)
    } else {
        None
    }
}

/// The stage that a state file with the given `state` member records.
pub open spec fn recorded_stage(member: Option<Seq<char>>) -> Option<LauncherState> {
    match member {
        Some(name) => stage_named(name),
        None => None,
    }
}

/// The stage at which a run begins, given what the state file records: the
/// recorded stage, or `Init` where nothing usable is recorded or the last run
/// was completed.
pub open spec fn starting_stage(recorded: Option<LauncherState>) -> LauncherState {
    match recorded {
        Some(LauncherState::Complete) => LauncherState::Init,
        Some(stage) => stage,
        None => LauncherState::Init,
    }
}

/// The members of the state file for a stage written at a given time.
pub open spec fn state_file_members(stage: LauncherState, timestamp: Seq<char>) -> Seq<
    (Seq<char>, Seq<char>),
> {
    seq![("state"@, stage.name_text()), ("timestamp"@, timestamp)]
}

impl LauncherState {
    /// The successor of a stage on the happy path; `Complete` and `Failed` have none.
    pub open spec fn successor(self) -> Option<LauncherState> {
        match self {
            LauncherState::Init => Some(LauncherState::SelfUpdate),
            LauncherState::SelfUpdate => Some(LauncherState::DependencyAudit),
            LauncherState::DependencyAudit => Some(LauncherState::Sync),
            LauncherState::Sync => Some(LauncherState::Build),
            LauncherState::Build => Some(LauncherState::Launch),
            LauncherState::Launch => Some(LauncherState::Complete),
            LauncherState::Complete => None,
            LauncherState::Failed => None,
        }
    }

    /// The position of a stage in the happy path; `Failed` has position 0.
    pub open spec fn position(self) -> int {
        match self {
            LauncherState::Init => 0,
            LauncherState::SelfUpdate => 1,
            LauncherState::DependencyAudit => 2,
            LauncherState::Sync => 3,
            LauncherState::Build => 4,
            LauncherState::Launch => 5,
            LauncherState::Complete => 6,
            LauncherState::Failed => 0,
        }
    }

    /// The name under which a stage is written to the state file.
    pub open spec fn name_text(self) -> Seq<char> {
        match self {
            LauncherState::Init => "Init"@,
            LauncherState::SelfUpdate => "SelfUpdate"@,
            LauncherState::DependencyAudit => "DependencyAudit"@,
            LauncherState::Sync => "Sync"@,
            LauncherState::Build => "Build"@,
            LauncherState::Launch => "Launch"@,
            LauncherState::Complete => "Complete"@,
            LauncherState::Failed => "Failed"@,
        }
    }

    /// The words shown to the user while a stage runs.
    pub open spec fn label_text(self) -> Seq<char> {
        match self {
            LauncherState::Init => "Initializing"@,
            LauncherState::SelfUpdate => "Checking for Updates"@,
            LauncherState::DependencyAudit => "Verifying Dependencies"@,
            LauncherState::Sync => "Syncing Files"@,
            LauncherState::Build => "Building Engine"@,
            LauncherState::Launch => "Launching Game"@,
            LauncherState::Complete => "Complete"@,
            LauncherState::Failed => "Failed"@,
        }
    }

    /// The stage that follows on the happy path; `None` for `Complete` and
    /// `Failed`.
    pub fn next(self) -> (res: Option<LauncherState>)
        ensures
            res == self.successor(),
    {
        match self {
            LauncherState::Init => Some(LauncherState::SelfUpdate),
            LauncherState::SelfUpdate => Some(LauncherState::DependencyAudit),
            LauncherState::DependencyAudit => Some(LauncherState::Sync),
            LauncherState::Sync => Some(LauncherState::Build),
            LauncherState::Build => Some(LauncherState::Launch),
            LauncherState::Launch => Some(LauncherState::Complete),
            LauncherState::Complete => None,
            LauncherState::Failed => None,
        }
    }

    /// The position of the stage in the happy path, for display; 0 for `Failed`.
    pub fn step_number(self) -> (res: u8)
        ensures
            res == self.position(),
    {
        match self {
            LauncherState::Init => 0,
            LauncherState::SelfUpdate => 1,
            LauncherState::DependencyAudit => 2,
            LauncherState::Sync => 3,
            LauncherState::Build => 4,
            LauncherState::Launch => 5,
            LauncherState::Complete => 6,
            LauncherState::Failed => 0,
        }
    }

    /// The number of steps that lead from `Init` to `Complete`.
    pub fn total_steps() -> (res: u8)
        ensures
            res == 6,
            res == LauncherState::Complete.position(),
    {
        6
    }

    /// The name under which the stage is written to the state file.
    pub fn name(self) -> (res: String)
        ensures
            res@ == self.name_text(),
    {
        match self {
            LauncherState::Init => "Init".to_owned(),
            LauncherState::SelfUpdate => "SelfUpdate".to_owned(),
            LauncherState::DependencyAudit => "DependencyAudit".to_owned(),
            LauncherState::Sync => "Sync".to_owned(),
            LauncherState::Build => "Build".to_owned(),
            LauncherState::Launch => "Launch".to_owned(),
            LauncherState::Complete => "Complete".to_owned(),
            LauncherState::Failed => "Failed".to_owned(),
        }
    }

    /// The words shown to the user while the stage runs.
    pub fn to_string(self) -> (res: String)
        ensures
            res@ == self.label_text(),
    {
        match self {
            LauncherState::Init => "Initializing".to_owned(),
            LauncherState::SelfUpdate => "Checking for Updates".to_owned(),
            LauncherState::DependencyAudit => "Verifying Dependencies".to_owned(),
            LauncherState::Sync => "Syncing Files".to_owned(),
            LauncherState::Build => "Building Engine".to_owned(),
            LauncherState::Launch => "Launching Game".to_owned(),
            LauncherState::Complete => "Complete".to_owned(),
            LauncherState::Failed => "Failed".to_owned(),
        }
    }

    /// The stage that a name stands for, if it is the name of a stage.
    pub fn from_name(name: &str) -> (res: Option<LauncherState>)
        ensures
            res == stage_named(name@),
    {
        if str_eq(name, "Init") {
            Some(LauncherState::Init)
        } else if str_eq(name, "SelfUpdate") {
            Some(LauncherState::SelfUpdate)
        } else if str_eq(name, "DependencyAudit") {
            Some(LauncherState::DependencyAudit)
        } else if str_eq(name, "Sync") {
            Some(LauncherState::Sync)
        } else if str_eq(name, "Build") {
            Some(LauncherState::Build)
        } else if str_eq(name, "Launch") {
            Some(LauncherState::Launch)
        } else if str_eq(name, "Complete") {
            Some(LauncherState::Complete)
        } else if str_eq(name, "Failed") {
            Some(LauncherState::Failed)
        } else {
            None
        }
    }
}

/// Every stage is found again under the name it is written with.
pub proof fn lemma_name_identifies_stage(stage: LauncherState)
    ensures
        stage_named(stage.name_text()) == Some(stage),
{
    reveal_strlit("Init");
    reveal_strlit("SelfUpdate");
    reveal_strlit("DependencyAudit");
    reveal_strlit("Sync");
    reveal_strlit("Build");
    reveal_strlit("Launch");
    reveal_strlit("Complete");
    reveal_strlit("Failed");
    assert("Init"@.len() == 4 && "Sync"@.len() == 4 && "Build"@.len() == 5);
    assert("Launch"@.len() == 6 && "Failed"@.len() == 6 && "Complete"@.len() == 8);
    assert("SelfUpdate"@.len() == 10 && "DependencyAudit"@.len() == 15);
    assert("Init"@[0] == 'I' && "Sync"@[0] == 'S');
    assert("Launch"@[0] == 'L' && "Failed"@[0] == 'F');
}

/// The happy path is a chain: each stage but `Complete` and `Failed` has
/// exactly one successor, which stands one position further; `Complete` and
/// `Failed` have none.
pub proof fn lemma_stage_order(stage: LauncherState)
    ensures
        stage != LauncherState::Complete && stage != LauncherState::Failed ==> {
            &&& stage.successor() is Some
            &&& stage.successor()->0.position() == stage.position() + 1
            &&& stage.successor()->0 != LauncherState::Failed
        },
        stage == LauncherState::Complete || stage == LauncherState::Failed
            ==> stage.successor() is None,
{
}

/// Reads the stage that the text of a state file records: the stage named by
/// its `state` member, or `None` where the text is no such document or names
/// no stage.
pub fn load_state(content: &str) -> (res: Option<LauncherState>)
    ensures
        res == recorded_stage(json_text_member(content@, "state"@)),
{
    match read_text_member(content, "state") {
        Some(name) => LauncherState::from_name(name.as_str()),
        None => None,
    }
}

/// The text of the state file for a stage written at a given time.
pub fn render_state_file(stage: LauncherState, timestamp: &str) -> (res: Option<String>)
    ensures
        opt_text(res) == json_object_text(state_file_members(stage, timestamp@)),
{
    let mut members: Vec<(String, String)> = Vec::new();
    members.push(("state".to_owned(), stage.name()));
    members.push(("timestamp".to_owned(), timestamp.to_owned()));
    assert(crate::json::member_views(members@) =~= state_file_members(stage, timestamp@));
    write_text_object(&members)
}

/// The pipeline's coordinator: the current stage, and the stage that the
/// state file has to hold.
pub struct StateMachine {
    current_state: LauncherState,
    saved: Option<LauncherState>,
    state_file: LocalPath,
}

impl StateMachine {
    /// The stage that the machine is at.
    pub closed spec fn stage(&self) -> LauncherState {
        self.current_state
    }

    /// The stage that the state file has to hold; `None` where there must be no file.
    pub closed spec fn persisted(&self) -> Option<LauncherState> {
        self.saved
    }

    /// Where the state file lies.
    pub closed spec fn file(&self) -> Seq<Seq<char>> {
        self.state_file@
    }

    /// A machine for the installation under `install_dir`, resumed from what
    /// the state file holds (`None` where there is no file). It starts at the
    /// recorded stage; at `Init` where the file is absent, unreadable or
    /// records a completed run.
    pub fn new(install_dir: &LocalPath, content: Option<&str>) -> (res: StateMachine)
        ensures
            res.file() == install_dir@.push("launcher_state.json"@),
            content is None ==> res.stage() == LauncherState::Init && res.persisted() is None,
            content matches Some(text) ==> {
                let recorded = recorded_stage(json_text_member(text@, "state"@));
                &&& res.stage() == starting_stage(recorded)
                &&& res.persisted() == if recorded == Some(LauncherState::Complete) {
                    Some(LauncherState::Init)
                } else {
                    recorded
                }
            },
    {
        let recorded = match content {
            Some(text) => load_state(text),
            None => None,
        };
        Self::resume(install_dir, recorded)
    }

    /// A machine resumed from the stage that the state file was found to record.
    pub fn resume(install_dir: &LocalPath, recorded: Option<LauncherState>) -> (res: StateMachine)
        ensures
            res.file() == install_dir@.push("launcher_state.json"@),
            res.stage() == starting_stage(recorded),
            res.persisted() == if recorded == Some(LauncherState::Complete) {
                Some(LauncherState::Init)
            } else {
                recorded
            },
    {
        let state_file = install_dir.join("launcher_state.json");
        match recorded {
            Some(LauncherState::Complete) => StateMachine {
                current_state: LauncherState::Init,
                saved: Some(LauncherState::Init),
                state_file,
            },
            Some(stage) => StateMachine { current_state: stage, saved: Some(stage), state_file },
            None => StateMachine { current_state: LauncherState::Init, saved: None, state_file },
        }
    }

    /// The stage that the machine is at.
    pub fn current(&self) -> (res: LauncherState)
        ensures
            res == self.stage(),
    {
        self.current_state
    }

    /// The stage that the state file has to hold now.
    pub fn saved_state(&self) -> (res: Option<LauncherState>)
        ensures
            res == self.persisted(),
    {
        self.saved
    }

    /// Where the state file lies.
    pub fn state_file(&self) -> (res: LocalPath)
        ensures
            res@ == self.file(),
    {
        self.state_file.duplicate()
    }

    /// Advances to the next stage of the happy path and records it for the
    /// state file. At `Complete` and at `Failed` nothing changes.
    pub fn transition(&mut self) -> (res: Option<LauncherState>)
        ensures
            res == old(self).stage().successor(),
            final(self).file() == old(self).file(),
            res matches Some(next) ==> final(self).stage() == next && final(self).persisted()
                == Some(next),
            res is None ==> final(self).stage() == old(self).stage() && final(self).persisted()
                == old(self).persisted(),
    {
        match self.current_state.next() {
            Some(next) => {
                self.current_state = next;
                self.saved = Some(next);
                Some(next)
            },
            None => None,
        }
    }

    /// Records that the current stage failed.
    pub fn fail(&mut self)
        ensures
            final(self).stage() == LauncherState::Failed,
            final(self).persisted() == Some(LauncherState::Failed),
            final(self).file() == old(self).file(),
    {
        self.current_state = LauncherState::Failed;
        self.saved = Some(LauncherState::Failed);
    }

    /// Forces the machine back to the beginning.
    pub fn reset(&mut self)
        ensures
            final(self).stage() == LauncherState::Init,
            final(self).persisted() == Some(LauncherState::Init),
            final(self).file() == old(self).file(),
    {
        self.current_state = LauncherState::Init;
        self.saved = Some(LauncherState::Init);
    }

    /// Forces the machine to a given stage.
    pub fn set_state(&mut self, state: LauncherState)
        ensures
            final(self).stage() == state,
            final(self).persisted() == Some(state),
            final(self).file() == old(self).file(),
    {
        self.current_state = state;
        self.saved = Some(state);
    }

    /// Forgets the saved stage: the state file is to be deleted. The current
    /// stage stays.
    pub fn clear_saved_state(&mut self)
        ensures
            final(self).stage() == old(self).stage(),
            final(self).persisted() is None,
            final(self).file() == old(self).file(),
    {
        self.saved = None;
    }

    /// The text to write to the state file now, stamped with the current
    /// time: `None` where no stage is to be saved or the document cannot be
    /// written. Whatever the clock says, the text is that of
    /// `render_state_file` for the saved stage.
    pub fn save_state(&self) -> (res: Option<String>)
        ensures
            self.persisted() is None ==> res is None,
            self.persisted() matches Some(stage) ==> exists|timestamp: Seq<char>|
                opt_text(res) == json_object_text(#[trigger] state_file_members(stage, timestamp)),
    {
        match self.saved {
            Some(stage) => {
                let now = utc_timestamp();
                render_state_file(stage, now.as_str())
            },
            None => None,
        }
    }
}

} // verus!
