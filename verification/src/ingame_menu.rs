//! The in-game menu: shown over a paused game, it continues, saves,
//! loads, resets or quits the session, switches to another game, and
//! adjusts the emulator's disk and save-state slots.

use vstd::prelude::*;

use crate::command::{Bubble, Command, CommandSink};
use crate::display::DisplayLog;
use crate::game_switcher::GameSwitcher;
use crate::geom::{sat_add, Alignment, Point, Rect};
use crate::key::{Key, KeyEvent};
use crate::numtext::label_with_number;
use crate::resources::Resources;
use crate::retroarch::{ControlRequest, RetroArchCommand};
use crate::screenshot::{legacy_screenshot_name, primary_screenshot_name};
use crate::session::RetroArchInfo;
use crate::style::Stylesheet;
use crate::view::ViewNode;
use crate::widgets::{ButtonHint, Image, Label, RightWidget, Row, SettingsList};

verus! {

/// One entry of the menu list.
#[derive(Debug, Clone, Copy, PartialEq, Eq, Structural)]
pub enum MenuEntry {
    Continue,
    SwitchGame,
    Save,
    Load,
    Reset,
    Guide,
    Settings,
    Quit,
}

impl MenuEntry {
    /// The locale key of an entry's caption.
    pub open spec fn spec_key(self) -> Seq<char> {
        match self {
            MenuEntry::Continue => "ingame-menu-continue"@,
            MenuEntry::SwitchGame => "ingame-menu-switch-game"@,
            MenuEntry::Save => "ingame-menu-save"@,
            MenuEntry::Load => "ingame-menu-load"@,
            MenuEntry::Reset => "ingame-menu-reset"@,
            MenuEntry::Guide => "ingame-menu-guide"@,
            MenuEntry::Settings => "ingame-menu-settings"@,
            MenuEntry::Quit => "ingame-menu-quit"@,
        }
    }

    /// The caption of an entry under a locale.
    pub fn as_str(&self, locale: &crate::locale::Locale) -> (r: String)
        ensures
            r@ == locale.spec_t(self.spec_key()),
    {
        proof {
            reveal_strlit("ingame-menu-continue");
            reveal_strlit("ingame-menu-switch-game");
            reveal_strlit("ingame-menu-save");
            reveal_strlit("ingame-menu-load");
            reveal_strlit("ingame-menu-reset");
            reveal_strlit("ingame-menu-guide");
            reveal_strlit("ingame-menu-settings");
            reveal_strlit("ingame-menu-quit");
        }
        match self {
            MenuEntry::Continue => locale.t("ingame-menu-continue"),
            MenuEntry::SwitchGame => locale.t("ingame-menu-switch-game"),
            MenuEntry::Save => locale.t("ingame-menu-save"),
            MenuEntry::Load => locale.t("ingame-menu-load"),
            MenuEntry::Reset => locale.t("ingame-menu-reset"),
            MenuEntry::Guide => locale.t("ingame-menu-guide"),
            MenuEntry::Settings => locale.t("ingame-menu-settings"),
            MenuEntry::Quit => locale.t("ingame-menu-quit"),
        }
    }

    /// The entries shown for an emulator report: state slots bring the
    /// save and load entries, any report brings the switcher and reset,
    /// and without a report only continue, guide and quit remain.
    pub open spec fn spec_entries(info: Option<RetroArchInfo>) -> Seq<MenuEntry> {
        match info {
            Some(i) => if i.state_slot is Some {
                seq![
                    MenuEntry::Continue,
                    MenuEntry::SwitchGame,
                    MenuEntry::Save,
                    MenuEntry::Load,
                    MenuEntry::Guide,
                    MenuEntry::Settings,
                    MenuEntry::Reset,
                    MenuEntry::Quit,
                ]
            } else {
                seq![
                    MenuEntry::Continue,
                    MenuEntry::SwitchGame,
                    MenuEntry::Reset,
                    MenuEntry::Guide,
                    MenuEntry::Settings,
                    MenuEntry::Quit,
                ]
            },
            None => seq![MenuEntry::Continue, MenuEntry::Guide, MenuEntry::Quit],
        }
    }

    /// Builds the entry list for an emulator report.
    pub fn entries(info: &Option<RetroArchInfo>) -> (r: Vec<MenuEntry>)
        ensures
            r@ =~= Self::spec_entries(*info),
    {
        let mut r: Vec<MenuEntry> = Vec::new();
        match info {
            Some(i) => {
                if i.state_slot.is_some() {
                    r.push(MenuEntry::Continue);
                    r.push(MenuEntry::SwitchGame);
                    r.push(MenuEntry::Save);
                    r.push(MenuEntry::Load);
                    r.push(MenuEntry::Guide);
                    r.push(MenuEntry::Settings);
                    r.push(MenuEntry::Reset);
                    r.push(MenuEntry::Quit);
                } else {
                    r.push(MenuEntry::Continue);
                    r.push(MenuEntry::SwitchGame);
                    r.push(MenuEntry::Reset);
                    r.push(MenuEntry::Guide);
                    r.push(MenuEntry::Settings);
                    r.push(MenuEntry::Quit);
                }
            },
            None => {
                r.push(MenuEntry::Continue);
                r.push(MenuEntry::Guide);
                r.push(MenuEntry::Quit);
            },
        }
        r
    }
}

/// The persisted menu state: whether the guide reader was open when the
/// menu process was last replaced. The reader itself is an external
/// collaborator; the flag is kept so a successor can restore it.
#[derive(Debug, Clone, Copy, PartialEq, Eq, Structural)]
pub struct IngameMenuState {
    pub is_text_reader_open: bool,
}

impl Default for IngameMenuState {
    fn default() -> (r: Self)
        ensures
            !r.is_text_reader_open,
    {
        IngameMenuState { is_text_reader_open: false }
    }
}

/// A child view shown over the menu.
#[derive(Debug)]
pub enum ChildView {
    GameSwitcher(GameSwitcher),
}

impl ChildView {
    pub open spec fn wf(&self) -> bool {
        match self {
            ChildView::GameSwitcher(v) => v.wf(),
        }
    }

    pub open spec fn child_dirty(&self) -> bool {
        match self {
            ChildView::GameSwitcher(v) => v.tree_dirty(),
        }
    }
}

/// The two name candidates for the save-state preview image of the
/// current slot; the surrounding process answers which exists.
#[derive(Debug, PartialEq, Eq)]
pub struct ScreenshotProbe {
    pub primary: String,
    pub legacy: String,
}

/// The save-state slot the menu acts on: the emulator's reported slot,
/// or the first slot where no report carries one.
pub open spec fn spec_menu_slot(m: IngameMenu) -> i8 {
    match m.retroarch_info {
        Some(ri) => match ri.state_slot {
            Some(s) => s,
            None => 0,
        },
        None => 0,
    }
}

/// What acting on the selected entry sends to the root channel: continue
/// exits; save requests the state write, asks for its screenshot, then
/// exits; load, reset and the emulator-settings entries send their control
/// requests and exit; quit captures a final screenshot and quits the
/// emulator (or force-kills one without a control channel) before
/// exiting; the switcher and the guide send nothing.
pub open spec fn spec_select_effect(m: IngameMenu, before: Seq<Command>, after: Seq<Command>) -> bool {
    let e = m.entries@[m.menu.selected as int];
    let slot = spec_menu_slot(m);
    &&& (e is Continue ==> after =~= before.push(Command::Exit))
    &&& (e is SwitchGame ==> after =~= before)
    &&& (e is Guide ==> after =~= before)
    &&& (e is Save ==> after =~= before.push(
        Command::Control(ControlRequest::Send(RetroArchCommand::SaveStateSlot(slot))),
    ).push(
        Command::SaveStateScreenshot { path: m.path, core: m.res.game_info.core, slot },
    ).push(Command::Exit))
    &&& (e is Load ==> after =~= before.push(
        Command::Control(ControlRequest::Send(RetroArchCommand::LoadStateSlot(slot))),
    ).push(Command::Exit))
    &&& (e is Reset ==> after =~= before.push(
        Command::Control(ControlRequest::Send(RetroArchCommand::Reset)),
    ).push(Command::Exit))
    &&& (e is Settings ==> after =~= before.push(
        Command::Control(ControlRequest::Send(RetroArchCommand::Unpause)),
    ).push(Command::Control(ControlRequest::Send(RetroArchCommand::MenuToggle))).push(
        Command::Exit,
    ))
    &&& (e is Quit && m.retroarch_info is Some ==> after =~= before.push(
        Command::SaveStateScreenshot { path: m.path, core: m.res.game_info.core, slot: -1i8 },
    ).push(Command::Control(ControlRequest::Send(RetroArchCommand::Quit))).push(Command::Exit))
    &&& (e is Quit && m.retroarch_info is None ==> after =~= before.push(
        Command::Control(ControlRequest::ForceKillEmulator),
    ).push(Command::Exit))
}

/// What the left and right keys do while the menu itself has the focus:
/// on the continue row of multi-disk content they step the emulator's
/// disk slot (clamped to its range) and send the change; on the save and
/// load rows they step the save-state slot (`-1` is the floor, the
/// automatic slot) and send the change; on any other row they are
/// swallowed so the list does not scroll sideways.
pub open spec fn spec_slot_keys(
    m: IngameMenu,
    event: KeyEvent,
    before: Seq<Command>,
    after: Seq<Command>,
    consumed: bool,
) -> bool {
    let e = m.entries@[m.menu.selected as int];
    let left = event == KeyEvent::Pressed(Key::Left) || event == KeyEvent::Autorepeat(Key::Left);
    let right = event == KeyEvent::Pressed(Key::Right) || event == KeyEvent::Autorepeat(
        Key::Right,
    );
    m.child is None && (left || right) ==> consumed && (match m.retroarch_info {
        Some(ri) => {
            if ri.max_disk_slots > 1 && e is Continue {
                let new_slot: u8 = if left {
                    if ri.disk_slot > 0 {
                        (ri.disk_slot - 1) as u8
                    } else {
                        0
                    }
                } else {
                    if ri.disk_slot < 255 && ri.disk_slot + 1 < ri.max_disk_slots {
                        (ri.disk_slot + 1) as u8
                    } else {
                        ri.disk_slot
                    }
                };
                after =~= before.push(
                    Command::Control(ControlRequest::Send(RetroArchCommand::SetDiskSlot(new_slot))),
                )
            } else if (e is Save || e is Load) && ri.state_slot is Some {
                let slot = ri.state_slot->0;
                let new_slot: i8 = if left {
                    if slot > -1 {
                        (slot - 1) as i8
                    } else {
                        -1i8
                    }
                } else {
                    if slot < 127 {
                        (slot + 1) as i8
                    } else {
                        slot
                    }
                };
                after =~= before.push(
                    Command::Control(
                        ControlRequest::Send(RetroArchCommand::SetStateSlot(new_slot)),
                    ),
                )
            } else {
                after =~= before
            }
        },
        None => after =~= before,
    })
}

/// A queue with its close markers removed, order kept.
pub open spec fn non_close(s: Seq<Command>) -> Seq<Command>
    decreases s.len(),
{
    if s.len() == 0 {
        Seq::empty()
    } else if s[0] is CloseView {
        non_close(s.drop_first())
    } else {
        seq![s[0]] + non_close(s.drop_first())
    }
}

/// Filtering a close marker off the end of a clean queue gives the queue
/// back.
proof fn lemma_non_close_clean_push(s: Seq<Command>)
    requires
        crate::search::clean_bubble(s),
    ensures
        non_close(s.push(Command::CloseView)) =~= s,
    decreases s.len(),
{
    let t = s.push(Command::CloseView);
    if s.len() == 0 {
        assert(t[0] is CloseView);
        assert(t.drop_first() =~= Seq::<Command>::empty());
        assert(non_close(Seq::<Command>::empty()) =~= Seq::<Command>::empty());
        assert(non_close(t) =~= non_close(t.drop_first()));
    } else {
        assert(crate::search::keeps_bubbling(s[0]));
        assert(!(t[0] is CloseView));
        assert(t.drop_first() =~= s.drop_first().push(Command::CloseView));
        assert(crate::search::clean_bubble(s.drop_first())) by {
            assert(forall|i: int|
                0 <= i < s.drop_first().len() ==> crate::search::keeps_bubbling(
                    #[trigger] s.drop_first()[i],
                ));
        }
        lemma_non_close_clean_push(s.drop_first());
        assert(non_close(s.drop_first().push(Command::CloseView)) =~= s.drop_first());
        assert(non_close(t.drop_first()) =~= s.drop_first());
        assert(non_close(t) =~= seq![t[0]] + non_close(t.drop_first()));
        assert(seq![s[0]] + s.drop_first() =~= s);
    }
}

/// The in-game menu screen.
pub struct IngameMenu {
    pub rect: Rect,
    pub res: Resources,
    pub name: Label,
    pub status: Row<Label>,
    pub menu: SettingsList,
    pub child: Option<ChildView>,
    pub button_hints: Row<ButtonHint>,
    pub entries: Vec<MenuEntry>,
    pub retroarch_info: Option<RetroArchInfo>,
    pub path: String,
    pub image: Image,
    /// Candidate preview names waiting for an existence answer.
    pub probe: Option<ScreenshotProbe>,
    pub dirty: bool,
}

impl IngameMenu {
    pub open spec fn wf(&self) -> bool {
        &&& self.res.inv()
        &&& self.menu.wf()
        &&& self.entries@.len() == self.menu.left@.len()
        &&& self.menu.selected < self.entries@.len()
        &&& self.status.inv()
        &&& self.button_hints.inv()
        &&& (self.child matches Some(c) ==> c.wf())
        &&& (forall|i: int|
            0 <= i < self.entries@.len() ==> ((#[trigger] self.entries@[i]) is Save
                || self.entries@[i] is Load) ==> (self.retroarch_info matches Some(ri)
                && ri.state_slot is Some))
        &&& self.entries@ =~= MenuEntry::spec_entries(self.retroarch_info)
    }

    /// Builds the menu over the current session.
    pub fn new(
        rect: Rect,
        state: IngameMenuState,
        res: Resources,
        retroarch_info: Option<RetroArchInfo>,
    ) -> (v: IngameMenu)
        requires
            res.inv(),
        ensures
            v.wf(),
            v.retroarch_info == retroarch_info,
            v.child is None,
            v.path@ == res.game_info.path@,
            v.entries@ =~= MenuEntry::spec_entries(retroarch_info),
    {
        let name = Label::new(
            Point::new(sat_add(rect.x, 12), sat_add(rect.y, 8)),
            res.game_info.name.clone(),
            Alignment::Left,
            None,
        );
        let mut status_items: Vec<Label> = Vec::new();
        status_items.push(
            Label::new(Point::new(0, 0), res.locale.t("status-battery"), Alignment::Right, None),
        );
        if res.styles.show_clock {
            status_items.push(
                Label::new(Point::new(0, 0), res.locale.t("status-clock"), Alignment::Right, None),
            );
        }
        let status = Row::new(
            Point::new(sat_add(rect.x, (rect.w / 2) as i32), sat_add(rect.y, 8)),
            status_items,
            Alignment::Right,
            8,
        );
        let entries = MenuEntry::entries(&retroarch_info);
        let mut left: Vec<String> = Vec::new();
        let mut right: Vec<RightWidget> = Vec::new();
        let n = entries.len();
        let mut i: usize = 0;
        while i < n
            invariant
                n == entries@.len(),
                0 <= i <= n,
                left@.len() == i,
                right@.len() == i,
                forall|j: int| 0 <= j < i ==> (#[trigger] right@[j]).wf(),
            decreases n - i,
        {
            let caption = entries[i].as_str(&res.locale);
            left.push(caption);
            right.push(RightWidget::Nothing);
            i += 1;
        }
        assert(n > 0) by {
            assert(MenuEntry::spec_entries(retroarch_info).len() > 0);
        }
        let menu = SettingsList::new(
            Rect::new(
                sat_add(rect.x, 12),
                sat_add(rect.y, 48),
                if rect.w >= 48 {
                    rect.w - 48
                } else {
                    0
                },
                if rect.h >= 96 {
                    rect.h - 96
                } else {
                    0
                },
            ),
            left,
            right,
            sat_add(res.styles.ui_font.size as i32, 8) as u32,
        );
        let mut image = Image::empty(
            Rect::new(
                sat_add(rect.x, (rect.w / 2) as i32),
                sat_add(rect.y, 48),
                rect.w / 2,
                if rect.h >= 96 {
                    rect.h - 96
                } else {
                    0
                },
            ),
        );
        image.set_border_radius(12);
        image.set_alignment(Alignment::Right);
        let hx = sat_add(sat_add(rect.x, rect.w as i32), -12);
        let hy = sat_add(sat_add(rect.y, rect.h as i32), -40);
        let mut hints: Vec<ButtonHint> = Vec::new();
        hints.push(
            ButtonHint::new(
                Point::new(hx, hy),
                Key::A,
                res.locale.t("button-select"),
                Alignment::Right,
            ),
        );
        hints.push(
            ButtonHint::new(
                Point::new(hx, hy),
                Key::B,
                res.locale.t("button-back"),
                Alignment::Right,
            ),
        );
        let button_hints = Row::new(Point::new(hx, hy), hints, Alignment::Right, 12);
        let path = res.game_info.path.clone();
        IngameMenu {
            rect,
            res,
            name,
            status,
            menu,
            child: None,
            button_hints,
            entries,
            retroarch_info,
            path,
            image,
            probe: None,
            dirty: false,
        }
    }

    /// Restores the menu from a persisted state, where the surrounding
    /// process has already read and parsed it; a missing or corrupt file
    /// arrives as `None` and yields the default state.
    pub fn load_or_new(
        rect: Rect,
        state: Option<IngameMenuState>,
        res: Resources,
        retroarch_info: Option<RetroArchInfo>,
    ) -> (v: IngameMenu)
        requires
            res.inv(),
        ensures
            v.wf(),
            v.child is None,
    {
        match state {
            Some(s) => Self::new(rect, s, res, retroarch_info),
            None => Self::new(rect, IngameMenuState::default(), res, retroarch_info),
        }
    }

    /// The state to persist before the process is replaced.
    pub fn save(&self) -> (r: IngameMenuState)
        ensures
            !r.is_text_reader_open,
    {
        // The guide reader is an external collaborator and is never open
        // in this build of the menu.
        IngameMenuState { is_text_reader_open: false }
    }

    /// Hands a started handoff to the surrounding process.
    pub fn take_pending_handoff(&mut self) -> (m: Option<crate::handoff::HandoffMachine>)
        requires
            old(self).wf(),
        ensures
            final(self).wf(),
    {
        match &mut self.child {
            Some(ChildView::GameSwitcher(gs)) => gs.take_pending(),
            None => None,
        }
    }

    /// The candidate preview names waiting for an existence answer.
    pub fn take_probe(&mut self) -> (p: Option<ScreenshotProbe>)
        requires
            old(self).wf(),
        ensures
            final(self).wf(),
            p == old(self).probe,
            final(self).probe is None,
    {
        self.probe.take()
    }

    /// Caches the resolved preview path, as chosen by
    /// `crate::screenshot::choose_screenshot` over the probe's answers.
    pub fn set_screenshot(&mut self, path: Option<String>)
        requires
            old(self).wf(),
        ensures
            final(self).wf(),
            final(self).image.path == path,
            final(self).image.dirty,
    {
        self.image.set_path(path);
    }

    /// Updates the slot caption beside the save and load entries and asks
    /// for the matching preview image: the probe names the current scheme
    /// and, for images recorded before cores entered the digest, the
    /// legacy scheme.
    fn update_state_slot_label(&mut self, state_slot: i8)
        requires
            old(self).wf(),
        ensures
            final(self).wf(),
            final(self).probe matches Some(p) && p.primary@
                == crate::screenshot::spec_screenshot_name(
                old(self).path@,
                Some(old(self).res.game_info.core@),
                state_slot,
            ) && p.legacy@ == crate::screenshot::spec_screenshot_name(
                old(self).path@,
                None,
                state_slot,
            ),
            final(self).entries == old(self).entries,
            final(self).retroarch_info == old(self).retroarch_info,
            final(self).child == old(self).child,
    {
        let caption = if state_slot == -1 {
            self.res.locale.t("ingame-menu-slot-auto")
        } else {
            let base = self.res.locale.t("ingame-menu-slot");
            if state_slot >= 0 {
                label_with_number(&base, state_slot as usize)
            } else {
                base
            }
        };
        let sel = self.menu.selected();
        self.menu.set_right(sel, RightWidget::Caption(caption));
        let primary = primary_screenshot_name(&self.path, &self.res.game_info.core, state_slot);
        let legacy = legacy_screenshot_name(&self.path, state_slot);
        self.probe = Some(ScreenshotProbe { primary, legacy });
    }

    /// Acts on the selected entry.
    fn select_entry(&mut self, commands: &mut CommandSink) -> (consumed: bool)
        requires
            old(self).wf(),
        ensures
            final(self).wf(),
            final(commands).extends(*old(commands)),
            consumed,
            spec_select_effect(*old(self), old(commands).sent@, final(commands).sent@),
            old(self).entries@[old(self).menu.selected as int] is SwitchGame ==> (final(self).child
                is Some && final(self).tree_dirty()),
            !(old(self).entries@[old(self).menu.selected as int] is SwitchGame)
                ==> final(self).child == old(self).child,
            final(self).entries == old(self).entries,
            final(self).retroarch_info == old(self).retroarch_info,
            final(self).menu.selected == old(self).menu.selected,
    {
        let selected = self.menu.selected();
        let entry = self.entries[selected];
        match entry {
            MenuEntry::Continue => {
                commands.send(Command::Exit);
            },
            MenuEntry::SwitchGame => {
                let switcher = GameSwitcher::new(self.rect, &self.res);
                self.child = Some(ChildView::GameSwitcher(switcher));
                self.set_should_draw_all();
            },
            MenuEntry::Save => {
                let slot = match &self.retroarch_info {
                    Some(ri) => match ri.state_slot {
                        Some(s) => s,
                        None => 0,
                    },
                    None => 0,
                };
                commands.send(
                    Command::Control(ControlRequest::Send(RetroArchCommand::SaveStateSlot(slot))),
                );
                commands.send(
                    Command::SaveStateScreenshot {
                        path: self.path.clone(),
                        core: self.res.game_info.core.clone(),
                        slot,
                    },
                );
                commands.send(Command::Exit);
            },
            MenuEntry::Load => {
                let slot = match &self.retroarch_info {
                    Some(ri) => match ri.state_slot {
                        Some(s) => s,
                        None => 0,
                    },
                    None => 0,
                };
                commands.send(
                    Command::Control(ControlRequest::Send(RetroArchCommand::LoadStateSlot(slot))),
                );
                commands.send(Command::Exit);
            },
            MenuEntry::Reset => {
                commands.send(Command::Control(ControlRequest::Send(RetroArchCommand::Reset)));
                commands.send(Command::Exit);
            },
            MenuEntry::Guide => {
                // The guide reader is an external collaborator; nothing to
                // open here.
            },
            MenuEntry::Settings => {
                commands.send(Command::Control(ControlRequest::Send(RetroArchCommand::Unpause)));
                commands.send(
                    Command::Control(ControlRequest::Send(RetroArchCommand::MenuToggle)),
                );
                commands.send(Command::Exit);
            },
            MenuEntry::Quit => {
                if self.retroarch_info.is_some() {
                    commands.send(
                        Command::SaveStateScreenshot {
                            path: self.path.clone(),
                            core: self.res.game_info.core.clone(),
                            slot: -1,
                        },
                    );
                    commands.send(Command::Control(ControlRequest::Send(RetroArchCommand::Quit)));
                } else {
                    commands.send(Command::Control(ControlRequest::ForceKillEmulator));
                }
                commands.send(Command::Exit);
            },
        }
        true
    }

    /// Marks this node and every descendant it owns.
    fn set_should_draw_all(&mut self)
        requires
            old(self).wf(),
        ensures
            final(self).wf(),
            final(self).tree_dirty(),
            final(self).dirty,
            final(self).name.tree_dirty(),
            final(self).status.tree_dirty(),
            final(self).menu.tree_dirty(),
            final(self).image.tree_dirty(),
            final(self).button_hints.tree_dirty(),
            final(self).entries == old(self).entries,
            final(self).retroarch_info == old(self).retroarch_info,
            final(self).menu.selected == old(self).menu.selected,
            final(self).child is None <==> old(self).child is None,
    {
        self.dirty = true;
        self.name.set_should_draw();
        self.status.set_should_draw();
        self.menu.set_should_draw();
        self.image.set_should_draw();
        self.button_hints.set_should_draw();
        match &mut self.child {
            Some(ChildView::GameSwitcher(gs)) => gs.set_should_draw(),
            None => {},
        }
    }
}

impl ViewNode for IngameMenu {
    open spec fn inv(&self) -> bool {
        self.wf()
    }

    open spec fn tree_dirty(&self) -> bool {
        match self.child {
            Some(c) => self.dirty || c.child_dirty(),
            None => self.dirty || self.name.tree_dirty() || self.status.tree_dirty()
                || self.menu.tree_dirty() || self.image.tree_dirty()
                || self.button_hints.tree_dirty(),
        }
    }

    open spec fn draws_no_background(&self) -> bool {
        false
    }

    fn should_draw(&self) -> (r: bool) {
        match &self.child {
            Some(ChildView::GameSwitcher(gs)) => self.dirty || gs.should_draw(),
            None => self.dirty || self.name.should_draw() || self.status.should_draw()
                || self.menu.should_draw() || self.image.should_draw()
                || self.button_hints.should_draw(),
        }
    }

    fn set_should_draw(&mut self) {
        self.set_should_draw_all();
    }

    /// The menu invalidates its background once per dirty cycle, before
    /// compositing children, never once per child; the settings rows clear
    /// their own strip within their own dirty cycle.
    fn draw(&mut self, display: &mut DisplayLog, styles: &Stylesheet) -> (drawn: bool)
        ensures
            old(self).dirty ==> (drawn && final(display).appended_since(*old(display))[0]
                == crate::display::DrawOp::Invalidate(old(self).rect)),
            crate::display::count_invalidates(final(display).appended_since(*old(display)))
                == (if old(self).dirty {
                1int
            } else {
                0int
            }) + (if old(self).child is None && old(self).menu.dirty {
                1int
            } else {
                0int
            }),
    {
        let ghost base = *display;
        let mut drawn = false;
        if self.dirty {
            // The composite invalidates its background once per dirty
            // cycle, before compositing children.
            display.load(self.rect);
            proof {
                assert(display.appended_since(base) =~= seq![
                    crate::display::DrawOp::Invalidate(self.rect),
                ]);
                crate::display::lemma_count_invalidates_singleton(
                    crate::display::DrawOp::Invalidate(self.rect),
                );
            }
            self.dirty = false;
            drawn = true;
        } else {
            proof {
                assert(display.appended_since(base) =~= Seq::<
                    crate::display::DrawOp,
                >::empty());
            }
        }
        let ghost own = *display;
        match &mut self.child {
            Some(ChildView::GameSwitcher(gs)) => {
                let ghost mid = *display;
                proof {
                    assert(gs.draws_no_background());
                }
                let d = gs.draw(display, styles);
                proof {
                    crate::display::lemma_extends_trans(base, mid, *display);
                    crate::display::lemma_count_invalidates_split(base.ops@, mid.ops@, display.ops@);
                }
                drawn = drawn || d;
            },
            None => {
                let ghost m0 = *display;
                let d1 = self.name.draw(display, styles);
                proof {
                    crate::display::lemma_extends_trans(base, m0, *display);
                    crate::display::lemma_count_invalidates_split(base.ops@, m0.ops@, display.ops@);
                }
                let ghost m1 = *display;
                proof {
                    assert(self.status.draws_no_background());
                }
                let d2 = self.status.draw(display, styles);
                proof {
                    crate::display::lemma_extends_trans(base, m1, *display);
                    crate::display::lemma_count_invalidates_split(base.ops@, m1.ops@, display.ops@);
                }
                let ghost m2 = *display;
                let d3 = self.menu.draw(display, styles);
                proof {
                    crate::display::lemma_extends_trans(base, m2, *display);
                    crate::display::lemma_count_invalidates_split(base.ops@, m2.ops@, display.ops@);
                }
                let ghost m3 = *display;
                let d4 = self.image.draw(display, styles);
                proof {
                    crate::display::lemma_extends_trans(base, m3, *display);
                    crate::display::lemma_count_invalidates_split(base.ops@, m3.ops@, display.ops@);
                }
                let ghost m4 = *display;
                proof {
                    assert(self.button_hints.draws_no_background());
                }
                let d5 = self.button_hints.draw(display, styles);
                proof {
                    crate::display::lemma_extends_trans(base, m4, *display);
                    crate::display::lemma_count_invalidates_split(base.ops@, m4.ops@, display.ops@);
                }
                drawn = drawn || d1 || d2 || d3 || d4 || d5;
            },
        }
        proof {
            if old(self).dirty {
                assert(display.ops@.take(own.ops@.len() as int)[base.ops@.len() as int]
                    == own.ops@[base.ops@.len() as int]);
            }
        }
        drawn
    }

    fn handle_key_event(&mut self, event: KeyEvent, commands: &mut CommandSink, bubble: &mut Bubble)
        -> (consumed: bool)
        ensures
            (old(self).child matches Some(c) && (c matches ChildView::GameSwitcher(gs))
                && crate::search::clean_bubble(old(bubble)@) && (event == KeyEvent::Pressed(Key::B)
                || event == KeyEvent::Pressed(Key::Menu))) ==> (consumed
                && final(self).child is None && final(self).tree_dirty()
                && final(commands).sent@ =~= old(commands).sent@ && final(bubble)@
                =~= old(bubble)@ && !crate::search::has_close(final(bubble)@)),
            (old(self).child is None && event == KeyEvent::Pressed(Key::A)) ==> (consumed
                && spec_select_effect(*old(self), old(commands).sent@, final(commands).sent@)
                && final(bubble)@ =~= old(bubble)@ && (old(self).entries@[old(
                self,
            ).menu.selected as int] is SwitchGame ==> final(self).child is Some)),
            spec_slot_keys(*old(self), event, old(commands).sent@, final(commands).sent@, consumed),
    {
        let ghost b0 = bubble@;
        // A child view holds the focus while it is open.
        let mut close_child = false;
        let child_consumed = match &mut self.child {
            Some(ChildView::GameSwitcher(gs)) => gs.handle_key_event(event, commands, bubble),
            None => false,
        };
        if self.child.is_some() {
            if child_consumed {
                // Consume the child's close request before it can reach
                // the root: closing is this menu's own affair.
                let ghost b1 = bubble@;
                let mut kept: Bubble = Vec::new();
                let n = bubble.len();
                let mut i: usize = 0;
                assert(bubble@ =~= b1.skip(0));
                while i < n
                    invariant
                        n == b1.len(),
                        0 <= i <= n,
                        bubble@ =~= b1.skip(i as int),
                        forall|j: int| 0 <= j < kept@.len() ==> !((#[trigger] kept@[j]) is CloseView),
                        kept@ + non_close(b1.skip(i as int)) =~= non_close(b1),
                        close_child == crate::search::has_close(b1.take(i as int)),
                    decreases n - i,
                {
                    assert(b1.skip(i as int)[0] == b1[i as int]);
                    assert(b1.skip(i as int).drop_first() =~= b1.skip(i + 1));
                    assert(b1.take(i + 1).drop_last() =~= b1.take(i as int));
                    assert(b1.take(i + 1).last() == b1[i as int]);
                    let ghost prefix = b1.take(i as int);
                    let ghost kv = kept@;
                    let c = bubble.remove(0);
                    assert(bubble@ =~= b1.skip(i + 1));
                    match c {
                        Command::CloseView => {
                            close_child = true;
                        },
                        other => {
                            kept.push(other);
                            assert(kept@ =~= kv.push(b1[i as int]));
                        },
                    }
                    proof {
                        if crate::search::has_close(b1.take(i + 1)) && !(b1[i as int]
                            is CloseView) {
                            let j = choose|j: int|
                                0 <= j < i + 1 && (#[trigger] b1.take(i + 1)[j]) is CloseView;
                            assert(prefix[j] is CloseView);
                        }
                        if crate::search::has_close(prefix) {
                            let j = choose|j: int|
                                0 <= j < i && (#[trigger] prefix[j]) is CloseView;
                            assert(b1.take(i + 1)[j] is CloseView);
                        }
                    }
                    i += 1;
                }
                assert(b1.take(n as int) =~= b1);
                assert(b1.skip(n as int) =~= Seq::<Command>::empty());
                assert(kept@ =~= non_close(b1));
                bubble.append(&mut kept);
                proof {
                    if crate::search::clean_bubble(b0) && (event == KeyEvent::Pressed(Key::B)
                        || event == KeyEvent::Pressed(Key::Menu)) {
                        assert(b1 =~= b0.push(Command::CloseView));
                        assert(b1[b1.len() - 1] is CloseView);
                        assert(crate::search::has_close(b1));
                        lemma_non_close_clean_push(b0);
                        assert(bubble@ =~= b0);
                    }
                }
                if close_child {
                    self.child = None;
                    self.set_should_draw_all();
                }
                assert(forall|j: int|
                    0 <= j < bubble@.len() ==> !((#[trigger] bubble@[j]) is CloseView));
                proof {
                    if crate::search::clean_bubble(b0) && (event == KeyEvent::Pressed(Key::B)
                        || event == KeyEvent::Pressed(Key::Menu)) && old(self).child is Some {
                        assert(close_child);
                        assert(self.child is None);
                        assert(commands.sent@ =~= old(commands).sent@);
                        assert(!crate::search::has_close(bubble@));
                    }
                }
                return true;
            }
            return false;
        }
        // Disk-slot adjustment on the continue row.
        let selected = self.menu.selected();
        let entry = self.entries[selected];
        let mut handled = false;
        match &mut self.retroarch_info {
            Some(info) => {
                if info.max_disk_slots > 1 && matches!(entry, MenuEntry::Continue) {
                    match event {
                        KeyEvent::Pressed(Key::Left) | KeyEvent::Autorepeat(Key::Left) => {
                            if info.disk_slot > 0 {
                                info.disk_slot = info.disk_slot - 1;
                            }
                            let slot = info.disk_slot;
                            commands.send(
                                Command::Control(
                                    ControlRequest::Send(RetroArchCommand::SetDiskSlot(slot)),
                                ),
                            );
                            handled = true;
                        },
                        KeyEvent::Pressed(Key::Right) | KeyEvent::Autorepeat(Key::Right) => {
                            if info.disk_slot < 255 && info.disk_slot + 1 < info.max_disk_slots {
                                info.disk_slot = info.disk_slot + 1;
                            }
                            let slot = info.disk_slot;
                            commands.send(
                                Command::Control(
                                    ControlRequest::Send(RetroArchCommand::SetDiskSlot(slot)),
                                ),
                            );
                            handled = true;
                        },
                        _ => {},
                    }
                }
            },
            None => {},
        }
        if handled {
            let disk = match &self.retroarch_info {
                Some(info) => info.disk_slot,
                None => 0,
            };
            let base = self.res.locale.t("ingame-menu-disk");
            let caption = label_with_number(&base, (disk as usize) + 1);
            let sel = self.menu.selected();
            self.menu.set_right(sel, RightWidget::Caption(caption));
            return true;
        }
        // State-slot adjustment on the save and load rows.
        let mut new_slot: Option<i8> = None;
        match &mut self.retroarch_info {
            Some(info) => {
                match info.state_slot {
                    Some(slot) => {
                        if matches!(entry, MenuEntry::Save) || matches!(entry, MenuEntry::Load) {
                            match event {
                                KeyEvent::Pressed(Key::Left) | KeyEvent::Autorepeat(Key::Left) => {
                                    let s = if slot > -1 {
                                        slot - 1
                                    } else {
                                        -1
                                    };
                                    info.state_slot = Some(s);
                                    new_slot = Some(s);
                                },
                                KeyEvent::Pressed(Key::Right)
                                | KeyEvent::Autorepeat(Key::Right) => {
                                    let s = if slot < 127 {
                                        slot + 1
                                    } else {
                                        slot
                                    };
                                    info.state_slot = Some(s);
                                    new_slot = Some(s);
                                },
                                _ => {},
                            }
                        }
                    },
                    None => {},
                }
            },
            None => {},
        }
        match new_slot {
            Some(s) => {
                commands.send(
                    Command::Control(ControlRequest::Send(RetroArchCommand::SetStateSlot(s))),
                );
                proof {
                    assert(MenuEntry::spec_entries(self.retroarch_info)
                        =~= MenuEntry::spec_entries(old(self).retroarch_info));
                }
                self.update_state_slot_label(s);
                return true;
            },
            None => {},
        }
        match event {
            KeyEvent::Pressed(Key::A) => self.select_entry(commands),
            KeyEvent::Pressed(Key::Left) | KeyEvent::Pressed(Key::Right)
            | KeyEvent::Autorepeat(Key::Left) | KeyEvent::Autorepeat(Key::Right) => {
                // The menu does not scroll sideways.
                true
            },
            _ => {
                let prev = self.menu.selected();
                let menu_consumed = self.menu.handle_key_event(event, commands, bubble);
                let curr = self.menu.selected();
                if menu_consumed && prev != curr {
                    match &self.retroarch_info {
                        Some(info) => {
                            match info.state_slot {
                                Some(slot) => {
                                    let was_slot_row = matches!(
                                        self.entries[prev],
                                        MenuEntry::Save | MenuEntry::Load
                                    );
                                    let is_slot_row = matches!(
                                        self.entries[curr],
                                        MenuEntry::Save | MenuEntry::Load
                                    );
                                    if was_slot_row {
                                        self.menu.set_right(prev, RightWidget::Nothing);
                                    }
                                    if is_slot_row {
                                        self.update_state_slot_label(slot);
                                    } else {
                                        self.image.set_path(None);
                                    }
                                },
                                None => {},
                            }
                        },
                        None => {},
                    }
                }
                if !menu_consumed && matches!(event, KeyEvent::Pressed(Key::B)) {
                    commands.send(Command::Exit);
                }
                menu_consumed
            },
        }
    }

    fn bounding_box(&self, styles: &Stylesheet) -> (r: Rect)
        ensures
            r == self.rect,
    {
        self.rect
    }

    fn set_position(&mut self, point: Point) -> (supported: bool)
        ensures
            supported,
    {
        self.rect.x = point.x;
        self.rect.y = point.y;
        true
    }
}

} // verus!
