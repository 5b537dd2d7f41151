//! Mapping game paths to consoles and cores, and planning a launch.
//!
//! A console claims a path by an exact file name, by a file extension, or
//! by a folder pattern anywhere up the directory chain — either the folder
//! name itself or a parenthesized tag inside it. The config files naming
//! the consoles and cores are parsed by the surrounding process and handed
//! in as plain values.

use vstd::prelude::*;
use vstd::utf8::encode_utf8;

use crate::bytes::{
    ascii_lower, bytes_range, contains_bytes, eq_bytes_range, find_last_byte, is_substring,
    rfind_byte_before, to_ascii_lower,
};
use crate::command::Command;
use crate::database::Database;
use crate::entry::Game;
use crate::history::{GameHistory, GameHistoryEntry};
use crate::session::{GameInfo, LaunchPlan};

verus! {

/// The display name of a core.
pub type CoreName = String;

/// One console: its display name, the cores that can run its games
/// (first is the default), and the ways it claims a path.
#[derive(Debug, PartialEq, Eq)]
pub struct Console {
    pub name: String,
    pub cores: Vec<CoreName>,
    /// Folder names to match exactly, or inside parentheses.
    pub patterns: Vec<String>,
    /// File extensions to match, lower case, against every extension of
    /// the file.
    pub extensions: Vec<String>,
    /// Entire file names to match exactly.
    pub file_name: Vec<String>,
}

/// How a core is launched.
#[derive(Debug, PartialEq, Eq)]
pub enum CoreType {
    /// The name of a libretro core run by the emulator frontend.
    RetroArch(String),
    /// The path of a launch script.
    Path(String),
}

/// One core: display name, launch kind, and whether the hardware swap
/// step is required.
#[derive(Debug, PartialEq, Eq)]
pub struct Core {
    pub name: String,
    pub core: CoreType,
    pub swap: bool,
}

/// Maps paths to consoles and cores.
#[derive(Debug)]
pub struct ConsoleMapper {
    pub cores: Vec<(CoreName, Core)>,
    pub consoles: Vec<Console>,
}

/// Whether a console lists this exact file name.
pub open spec fn file_name_claims(c: Console, name: Seq<u8>) -> bool {
    exists|i: int|
        0 <= i < c.file_name@.len() && encode_utf8(#[trigger] c.file_name@[i]@) =~= name
}

/// Whether a console lists this extension.
pub open spec fn ext_claims(c: Console, seg: Seq<u8>) -> bool {
    exists|i: int|
        0 <= i < c.extensions@.len() && encode_utf8(#[trigger] c.extensions@[i]@) =~= seg
}

/// Whether a console's pattern claims a folder name: the name is the
/// pattern itself, or holds it in parentheses.
pub open spec fn pattern_claims(c: Console, name: Seq<u8>) -> bool {
    exists|i: int|
        0 <= i < c.patterns@.len() && (encode_utf8(#[trigger] c.patterns@[i]@) =~= name
            || is_substring(name, seq![40u8] + encode_utf8(c.patterns@[i]@) + seq![41u8]))
}

/// The first console claiming this exact file name, or the count.
pub open spec fn first_fname_claim(cs: Seq<Console>, name: Seq<u8>) -> int
    decreases cs.len(),
{
    if cs.len() == 0 {
        0
    } else if file_name_claims(cs[0], name) {
        0
    } else {
        1 + first_fname_claim(cs.drop_first(), name)
    }
}

/// The first console claiming this extension segment, or the count.
pub open spec fn first_ext_claim(cs: Seq<Console>, seg: Seq<u8>) -> int
    decreases cs.len(),
{
    if cs.len() == 0 {
        0
    } else if ext_claims(cs[0], seg) {
        0
    } else {
        1 + first_ext_claim(cs.drop_first(), seg)
    }
}

/// The first console whose pattern claims this folder name, or the count.
pub open spec fn first_pattern_claim(cs: Seq<Console>, name: Seq<u8>) -> int
    decreases cs.len(),
{
    if cs.len() == 0 {
        0
    } else if pattern_claims(cs[0], name) {
        0
    } else {
        1 + first_pattern_claim(cs.drop_first(), name)
    }
}

/// The extension walk: the first console claiming any dot-separated
/// segment of `tail`, scanning segments left to right.
pub open spec fn ext_walk(tail: Seq<u8>, cs: Seq<Console>) -> int
    decreases tail.len(),
{
    let k = crate::bytes::find_byte(tail, 46);
    let seg = tail.take(k);
    let idx = first_ext_claim(cs, seg);
    if idx < cs.len() {
        idx
    } else if k >= tail.len() || k < 0 {
        cs.len() as int
    } else {
        ext_walk(tail.skip(k + 1), cs)
    }
}

/// Where the file name of `bs.take(end)` starts: after its last slash.
pub open spec fn name_start_of(bs: Seq<u8>, end: int) -> int {
    let ls = find_last_byte(bs.take(end), 47);
    if 0 <= ls + 1 <= end {
        ls + 1
    } else {
        0
    }
}

/// The pattern walk: the first console whose pattern claims the file name
/// of `bs.take(end)` or of any of its ancestors.
pub open spec fn pattern_walk(bs: Seq<u8>, end: int, cs: Seq<Console>) -> int
    decreases end,
{
    if end < 0 {
        cs.len() as int
    } else {
        let ls = find_last_byte(bs.take(end), 47);
        let name = bs.subrange(name_start_of(bs, end), end);
        let idx = first_pattern_claim(cs, name);
        if idx < cs.len() {
            idx
        } else if ls < 0 || ls >= end {
            cs.len() as int
        } else {
            pattern_walk(bs, ls, cs)
        }
    }
}

/// Which console claims a path: exact file names first, then extensions
/// of the lower-cased path, then folder patterns up the directory chain.
pub open spec fn spec_get_console(cs: Seq<Console>, bs: Seq<u8>) -> int {
    let name = bs.skip(find_last_byte(bs, 47) + 1);
    let i1 = first_fname_claim(cs, name);
    if i1 < cs.len() {
        i1
    } else {
        let low = ascii_lower(bs);
        let k = crate::bytes::find_byte(low, 46);
        let i2 = if k >= low.len() {
            cs.len() as int
        } else {
            ext_walk(low.skip(k + 1), cs)
        };
        if i2 < cs.len() {
            i2
        } else {
            pattern_walk(bs, bs.len() as int, cs)
        }
    }
}

/// Whether any string of `v` spells `bytes`.
fn any_str_eq(v: &Vec<String>, bytes: &[u8]) -> (r: bool)
    ensures
        r == exists|i: int| 0 <= i < v@.len() && encode_utf8(#[trigger] v@[i]@) =~= bytes@,
{
    let n = v.len();
    let mut i: usize = 0;
    while i < n
        invariant
            n == v@.len(),
            0 <= i <= n,
            forall|j: int| 0 <= j < i ==> !(encode_utf8(#[trigger] v@[j]@) =~= bytes@),
        decreases n - i,
    {
        let s = v[i].as_str().as_bytes();
        let len = s.len();
        assert(s@.subrange(0, len as int) =~= s@);
        if eq_bytes_range(s, 0, len, bytes) {
            return true;
        }
        i += 1;
    }
    false
}

/// Whether a console's pattern claims a folder name.
fn pattern_check(c: &Console, name: &[u8]) -> (r: bool)
    ensures
        r == pattern_claims(*c, name@),
{
    let n = c.patterns.len();
    let mut i: usize = 0;
    while i < n
        invariant
            n == c.patterns@.len(),
            0 <= i <= n,
            forall|j: int|
                0 <= j < i ==> !(encode_utf8(#[trigger] c.patterns@[j]@) =~= name@)
                    && !is_substring(
                    name@,
                    seq![40u8] + encode_utf8(c.patterns@[j]@) + seq![41u8],
                ),
        decreases n - i,
    {
        let p = c.patterns[i].as_str().as_bytes();
        let plen = p.len();
        assert(p@.subrange(0, plen as int) =~= p@);
        if eq_bytes_range(p, 0, plen, name) {
            return true;
        }
        // Try "(pattern)" inside the folder name.
        let mut needle: Vec<u8> = Vec::new();
        needle.push(40);
        let mut t: usize = 0;
        while t < plen
            invariant
                plen == p@.len(),
                0 <= t <= plen,
                needle@ =~= seq![40u8] + p@.take(t as int),
            decreases plen - t,
        {
            needle.push(p[t]);
            assert(needle@ =~= seq![40u8] + p@.take(t + 1));
            t += 1;
        }
        needle.push(41);
        assert(needle@ =~= seq![40u8] + encode_utf8(c.patterns@[i as int]@) + seq![41u8]);
        if contains_bytes(name, needle.as_slice()) {
            return true;
        }
        i += 1;
    }
    false
}

impl ConsoleMapper {
    /// An empty mapper; the config is installed once parsed.
    pub fn new() -> (m: ConsoleMapper)
        ensures
            m.cores@ =~= Seq::<(CoreName, Core)>::empty(),
            m.consoles@ =~= Seq::<Console>::empty(),
    {
        ConsoleMapper { cores: Vec::new(), consoles: Vec::new() }
    }

    /// Installs the parsed console and core configuration.
    pub fn install_config(&mut self, consoles: Vec<Console>, cores: Vec<(CoreName, Core)>)
        ensures
            final(self).consoles == consoles,
            final(self).cores == cores,
    {
        self.consoles = consoles;
        self.cores = cores;
    }

    /// The index of the console that claims the path, if any.
    pub fn get_console(&self, path: &String) -> (r: Option<usize>)
        ensures
            match r {
                Some(i) => i == spec_get_console(self.consoles@, encode_utf8(path@)) && i
                    < self.consoles@.len(),
                None => spec_get_console(self.consoles@, encode_utf8(path@))
                    == self.consoles@.len(),
            },
    {
        let bs = path.as_str().as_bytes();
        let n = bs.len();
        assert(bs@.take(n as int) =~= bs@);
        // Exact file names.
        let name_start: usize = match rfind_byte_before(bs, 47, n) {
            Some(i) => i + 1,
            None => 0,
        };
        proof {
            crate::bytes::lemma_find_last_byte_bounds(bs@, 47);
        }
        let name = bytes_range(bs, name_start, n);
        assert(name@ =~= bs@.skip(find_last_byte(bs@, 47) + 1));
        let cn = self.consoles.len();
        let mut i: usize = 0;
        assert(self.consoles@.skip(0) =~= self.consoles@);
        while i < cn
            invariant
                cn == self.consoles@.len(),
                0 <= i <= cn,
                name@ =~= encode_utf8(path@).skip(find_last_byte(encode_utf8(path@), 47) + 1),
                bs@ == encode_utf8(path@),
                n == bs@.len(),
                first_fname_claim(self.consoles@, name@) == i + first_fname_claim(
                    self.consoles@.skip(i as int),
                    name@,
                ),
            decreases cn - i,
        {
            assert(self.consoles@.skip(i as int)[0] == self.consoles@[i as int]);
            assert(self.consoles@.skip(i as int).drop_first() =~= self.consoles@.skip(i + 1));
            if any_str_eq(&self.consoles[i].file_name, name.as_slice()) {
                return Some(i);
            }
            i += 1;
        }
        assert(self.consoles@.skip(cn as int) =~= Seq::<Console>::empty());
        // Extensions over the lower-cased path.
        let low = to_ascii_lower(bs);
        let lown = low.len();
        let k = crate::bytes::find_byte_from(low.as_slice(), 46, 0);
        assert(low@.skip(0) =~= low@);
        if k < lown {
            let r = self.ext_walk_exec(low.as_slice(), k + 1);
            match r {
                Some(idx) => {
                    return Some(idx);
                },
                None => {},
            }
        }
        // Folder patterns up the chain.
        self.pattern_walk_exec(bs, n)
    }

    /// The extension walk from an offset into the lower-cased path.
    fn ext_walk_exec(&self, low: &[u8], from: usize) -> (r: Option<usize>)
        requires
            from <= low@.len(),
        ensures
            match r {
                Some(i) => i == ext_walk(low@.skip(from as int), self.consoles@) && i
                    < self.consoles@.len(),
                None => ext_walk(low@.skip(from as int), self.consoles@) == self.consoles@.len(),
            },
        decreases low@.len() - from,
    {
        let n = low.len();
        let k = crate::bytes::find_byte_from(low, 46, from);
        let seg = bytes_range(low, from, k);
        let ghost tail = low@.skip(from as int);
        assert(seg@ =~= tail.take(crate::bytes::find_byte(tail, 46)));
        let cn = self.consoles.len();
        let mut i: usize = 0;
        assert(self.consoles@.skip(0) =~= self.consoles@);
        while i < cn
            invariant
                cn == self.consoles@.len(),
                0 <= i <= cn,
                seg@ =~= tail.take(crate::bytes::find_byte(tail, 46)),
                tail == low@.skip(from as int),
                first_ext_claim(self.consoles@, seg@) == i + first_ext_claim(
                    self.consoles@.skip(i as int),
                    seg@,
                ),
            decreases cn - i,
        {
            assert(self.consoles@.skip(i as int)[0] == self.consoles@[i as int]);
            assert(self.consoles@.skip(i as int).drop_first() =~= self.consoles@.skip(i + 1));
            if any_str_eq(&self.consoles[i].extensions, seg.as_slice()) {
                return Some(i);
            }
            i += 1;
        }
        assert(self.consoles@.skip(cn as int) =~= Seq::<Console>::empty());
        if k >= n {
            assert(crate::bytes::find_byte(tail, 46) >= tail.len());
            None
        } else {
            assert(tail.skip(crate::bytes::find_byte(tail, 46) + 1) =~= low@.skip(k + 1));
            self.ext_walk_exec(low, k + 1)
        }
    }

    /// The pattern walk from the end of a path prefix.
    fn pattern_walk_exec(&self, bs: &[u8], end: usize) -> (r: Option<usize>)
        requires
            end <= bs@.len(),
        ensures
            match r {
                Some(i) => i == pattern_walk(bs@, end as int, self.consoles@) && i
                    < self.consoles@.len(),
                None => pattern_walk(bs@, end as int, self.consoles@) == self.consoles@.len(),
            },
        decreases end,
    {
        let ls = rfind_byte_before(bs, 47, end);
        let name_start: usize = match ls {
            Some(i) => i + 1,
            None => 0,
        };
        proof {
            crate::bytes::lemma_find_last_byte_bounds(bs@.take(end as int), 47);
        }
        let name = bytes_range(bs, name_start, end);
        assert(name@ =~= bs@.subrange(name_start_of(bs@, end as int), end as int));
        let cn = self.consoles.len();
        let mut i: usize = 0;
        assert(self.consoles@.skip(0) =~= self.consoles@);
        while i < cn
            invariant
                cn == self.consoles@.len(),
                0 <= i <= cn,
                end <= bs@.len(),
                name@ =~= bs@.subrange(name_start_of(bs@, end as int), end as int),
                first_pattern_claim(self.consoles@, name@) == i + first_pattern_claim(
                    self.consoles@.skip(i as int),
                    name@,
                ),
            decreases cn - i,
        {
            assert(self.consoles@.skip(i as int)[0] == self.consoles@[i as int]);
            assert(self.consoles@.skip(i as int).drop_first() =~= self.consoles@.skip(i + 1));
            if pattern_check(&self.consoles[i], name.as_slice()) {
                return Some(i);
            }
            i += 1;
        }
        assert(self.consoles@.skip(cn as int) =~= Seq::<Console>::empty());
        match ls {
            Some(slash) => self.pattern_walk_exec(bs, slash),
            None => None,
        }
    }

    /// The index of a console whose pattern names this directory exactly.
    pub fn get_console_by_dir(&self, path: &String) -> (r: Option<usize>)
        ensures
            match r {
                Some(i) => 0 <= i < self.consoles@.len() && exists|j: int|
                    0 <= j < self.consoles@[i as int].patterns@.len() && encode_utf8(
                        #[trigger] self.consoles@[i as int].patterns@[j]@,
                    ) =~= encode_utf8(path@).skip(
                        find_last_byte(encode_utf8(path@), 47) + 1,
                    ),
                None => true,
            },
    {
        let bs = path.as_str().as_bytes();
        let n = bs.len();
        assert(bs@.take(n as int) =~= bs@);
        let name_start: usize = match rfind_byte_before(bs, 47, n) {
            Some(i) => i + 1,
            None => 0,
        };
        proof {
            crate::bytes::lemma_find_last_byte_bounds(bs@, 47);
        }
        let name = bytes_range(bs, name_start, n);
        assert(name@ =~= bs@.skip(find_last_byte(bs@, 47) + 1));
        let cn = self.consoles.len();
        let mut i: usize = 0;
        while i < cn
            invariant
                cn == self.consoles@.len(),
                0 <= i <= cn,
                name@ =~= encode_utf8(path@).skip(find_last_byte(encode_utf8(path@), 47) + 1),
            decreases cn - i,
        {
            if any_str_eq(&self.consoles[i].patterns, name.as_slice()) {
                return Some(i);
            }
            i += 1;
        }
        None
    }

    /// The display name of a core, or the identifier itself where the
    /// config does not know it.
    pub fn get_core_name(&self, core: &str) -> (r: String)
        ensures
            r@ == match core_lookup(self.cores@, core@) {
                Some(c) => c.name@,
                None => core@,
            },
    {
        let key = core.to_owned();
        let n = self.cores.len();
        let mut i: usize = 0;
        assert(self.cores@.skip(0) =~= self.cores@);
        while i < n
            invariant
                n == self.cores@.len(),
                0 <= i <= n,
                key@ == core@,
                core_lookup(self.cores@, core@) == core_lookup(self.cores@.skip(i as int), core@),
            decreases n - i,
        {
            assert(self.cores@.skip(i as int)[0] == self.cores@[i as int]);
            assert(self.cores@.skip(i as int).drop_first() =~= self.cores@.skip(i + 1));
            if self.cores[i].0 == key {
                return self.cores[i].1.name.clone();
            }
            i += 1;
        }
        assert(self.cores@.skip(n as int) =~= Seq::<(CoreName, Core)>::empty());
        key
    }
}

/// Why a launch could not be planned.
#[derive(Debug, Clone, Copy, PartialEq, Eq, Structural)]
pub enum LaunchError {
    /// No console claims the game's path.
    NoConsole,
}

impl ConsoleMapper {
    /// Plans launching a game: picks its console and core, builds the
    /// session record and the process-replacement command, bumps the play
    /// count, and records the launch in the history. The caller persists
    /// the record durably before acting on the command.
    ///
    /// Fails exactly when no console claims the path; yields nothing when
    /// the claimed console names no core, or names one the config does
    /// not know.
    pub fn launch_game(
        &self,
        database: &mut Database,
        history: &mut GameHistory,
        game: &Game,
        launcher_command: &String,
    ) -> (r: Result<Option<(GameInfo, Command)>, LaunchError>)
        requires
            old(database).inv(),
            old(history).inv(),
        ensures
            final(database).inv(),
            final(history).inv(),
            r is Err <==> spec_get_console(self.consoles@, encode_utf8(game.path@))
                == self.consoles@.len(),
            r matches Ok(Some((info, cmd))) ==> {
                &&& info.name@ == game.name@
                &&& info.path@ == game.path@
                &&& (cmd matches Command::Exec(plan) && plan.command@ == info.command@
                    && plan.args@ == info.args@)
                &&& (match core_lookup(self.cores@, info.core@) {
                    Some(core) => {
                        &&& info.needs_swap == core.swap
                        &&& (core.core matches CoreType::RetroArch(lib) ==> info.has_menu
                            && info.command@ == launcher_command@ && info.args@.len() == 2
                            && info.args@[0]@ == lib@ && info.args@[1]@ == game.path@)
                        &&& (core.core matches CoreType::Path(p) ==> !info.has_menu
                            && info.command@ == p@ && info.args@.len() == 1 && info.args@[0]@
                            == game.path@)
                    },
                    None => false,
                })
                &&& exists|e: crate::history::EntryView|
                    final(history).view_seq() == #[trigger] crate::history::spec_record(
                        old(history).view_seq(),
                        e,
                    ) && e.path == game.path@ && e.name == game.name@ && e.screenshot is None
                        && e.has_menu == info.has_menu && e.needs_swap == info.needs_swap
                        && e.core == info.core@ && e.command == info.command@
            },
    {
        database.increment_play_count(&game.path);
        let console_idx = match self.get_console(&game.path) {
            Some(i) => i,
            None => {
                return Err(LaunchError::NoConsole);
            },
        };
        let console = &self.consoles[console_idx];
        // The game's own core choice wins; the console's first core is the
        // default.
        let core_name: String = match &game.core {
            Some(c) => c.clone(),
            None => {
                if console.cores.len() > 0 {
                    console.cores[0].clone()
                } else {
                    return Ok(None);
                }
            },
        };
        let mut core: Option<&Core> = None;
        let n = self.cores.len();
        let mut i: usize = 0;
        assert(self.cores@.skip(0) =~= self.cores@);
        while i < n
            invariant
                n == self.cores@.len(),
                0 <= i <= n,
                core is Some ==> i == n,
                (core matches Some(c) ==> core_lookup(self.cores@, core_name@) == Some(*c)),
                (core is None ==> core_lookup(self.cores@, core_name@) == core_lookup(
                    self.cores@.skip(i as int),
                    core_name@,
                )),
            decreases n - i,
        {
            assert(self.cores@.skip(i as int)[0] == self.cores@[i as int]);
            assert(self.cores@.skip(i as int).drop_first() =~= self.cores@.skip(i + 1));
            if self.cores[i].0 == core_name {
                assert(core_lookup(self.cores@.skip(i as int), core_name@) == Some(
                    self.cores@[i as int].1,
                ));
                core = Some(&self.cores[i].1);
                i = n;
            } else {
                i += 1;
            }
        }
        proof {
            if core is None {
                assert(self.cores@.skip(n as int) =~= Seq::<(CoreName, Core)>::empty());
            }
        }
        let core = match core {
            Some(c) => c,
            None => {
                return Ok(None);
            },
        };
        let game_info = match &core.core {
            CoreType::RetroArch(libretro_core) => {
                let mut args: Vec<String> = Vec::new();
                args.push(libretro_core.clone());
                args.push(game.path.clone());
                GameInfo::new(
                    game.name.clone(),
                    game.path.clone(),
                    core_name,
                    game.image.try_image_cloned(),
                    launcher_command.clone(),
                    args,
                    true,
                    core.swap,
                )
            },
            CoreType::Path(path) => {
                let mut args: Vec<String> = Vec::new();
                args.push(game.path.clone());
                GameInfo::new(
                    game.name.clone(),
                    game.path.clone(),
                    core_name,
                    game.image.try_image_cloned(),
                    path.clone(),
                    args,
                    false,
                    core.swap,
                )
            },
        };
        // Record the launch in the session history.
        let entry = GameHistoryEntry::new(
            game_info.name.clone(),
            game_info.path.clone(),
            game_info.core.clone(),
            game_info.command.clone(),
            crate::session::clone_string_vec(&game_info.args),
            None,
            game_info.has_menu,
            game_info.needs_swap,
        );
        history.record_launch(entry);
        let plan = game_info.launch_plan();
        Ok(Some((game_info, Command::Exec(plan))))
    }
}

/// The first core registered under a name.
pub open spec fn core_lookup(cores: Seq<(CoreName, Core)>, key: Seq<char>) -> Option<Core>
    decreases cores.len(),
{
    if cores.len() == 0 {
        None
    } else if cores[0].0@ == key {
        Some(cores[0].1)
    } else {
        core_lookup(cores.drop_first(), key)
    }
}

} // verus!
