//! The game session record: the persisted descriptor of the game that is
//! running or about to run, and the emulator status snapshot.

use vstd::prelude::*;

verus! {

/// Clones a vector of strings element for element.
pub fn clone_string_vec(v: &Vec<String>) -> (r: Vec<String>)
    ensures
        r@ =~= v@,
{
    let mut r: Vec<String> = Vec::new();
    let n = v.len();
    let mut i: usize = 0;
    while i < n
        invariant
            n == v@.len(),
            0 <= i <= n,
            r@ =~= v@.take(i as int),
        decreases n - i,
    {
        r.push(v[i].clone());
        assert(r@ =~= v@.take(i + 1 as int));
        i += 1;
    }
    assert(v@.take(n as int) =~= v@);
    r
}

/// A process launch plan: program and arguments.
#[derive(Debug, PartialEq, Eq)]
pub struct LaunchPlan {
    pub command: String,
    pub args: Vec<String>,
}

impl LaunchPlan {
    /// Plans agree when they run the same program with the same arguments.
    pub open spec fn agrees(self, other: LaunchPlan) -> bool {
        self.command@ == other.command@ && self.args@ == other.args@
    }
}

impl Clone for LaunchPlan {
    fn clone(&self) -> (res: Self)
        ensures
            res.agrees(*self),
    {
        LaunchPlan { command: self.command.clone(), args: clone_string_vec(&self.args) }
    }
}

/// The session record. It is owned exclusively by the process about to
/// launch a game, written to a well-known file immediately before control
/// is relinquished, and read exactly once by the successor process.
#[derive(Debug, PartialEq, Eq)]
pub struct GameInfo {
    /// Display name of the game.
    pub name: String,
    /// Absolute path of the ROM or content file.
    pub path: String,
    /// Emulator core identifier.
    pub core: String,
    /// Optional box-art image path.
    pub image: Option<String>,
    /// Program run to launch the game.
    pub command: String,
    /// Arguments passed to that program.
    pub args: Vec<String>,
    /// Whether the emulator exposes an in-process menu and can be asked to
    /// save or quit over the control channel.
    pub has_menu: bool,
    /// Whether a hardware swap step is required before launch.
    pub needs_swap: bool,
}

impl GameInfo {
    /// Records agree when every field agrees; vectors are compared element
    /// for element.
    pub open spec fn agrees(self, other: GameInfo) -> bool {
        &&& self.name == other.name
        &&& self.path == other.path
        &&& self.core == other.core
        &&& self.image == other.image
        &&& self.command == other.command
        &&& self.args@ == other.args@
        &&& self.has_menu == other.has_menu
        &&& self.needs_swap == other.needs_swap
    }

    pub fn new(
        name: String,
        path: String,
        core: String,
        image: Option<String>,
        command: String,
        args: Vec<String>,
        has_menu: bool,
        needs_swap: bool,
    ) -> (g: GameInfo)
        ensures
            g == (GameInfo { name, path, core, image, command, args, has_menu, needs_swap }),
    {
        GameInfo { name, path, core, image, command, args, has_menu, needs_swap }
    }

    /// The plan that launches this session.
    pub fn launch_plan(&self) -> (p: LaunchPlan)
        ensures
            p.command == self.command,
            p.args@ =~= self.args@,
    {
        LaunchPlan { command: self.command.clone(), args: clone_string_vec(&self.args) }
    }
}

impl Clone for GameInfo {
    fn clone(&self) -> (res: Self)
        ensures
            res.agrees(*self),
    {
        GameInfo {
            name: self.name.clone(),
            path: self.path.clone(),
            core: self.core.clone(),
            image: match &self.image {
                Some(p) => Some(p.clone()),
                None => None,
            },
            command: self.command.clone(),
            args: clone_string_vec(&self.args),
            has_menu: self.has_menu,
            needs_swap: self.needs_swap,
        }
    }
}

/// What the running emulator reported about itself when the menu was
/// opened: the active save-state slot (if states are supported), and the
/// disk slots of multi-disk content.
#[derive(Debug, Clone, Copy, PartialEq, Eq, Structural)]
pub struct RetroArchInfo {
    pub state_slot: Option<i8>,
    pub max_disk_slots: u8,
    pub disk_slot: u8,
}

} // verus!
