use itertools::Itertools;
use vstd::prelude::*;
use crate::components::EventState;
use crate::components::area::{Area, centered_area, spec_centered_area};
use crate::components::command::CommandInfo;
use crate::config::Config;
use crate::decimal::{decimal, decimal_string};
use crate::input::{Key, Mouse};

verus! {

/// The size of the help window: columns and rows.
pub const HELP_WIDTH: u16 = 65;
pub const HELP_HEIGHT: u16 = 24;

/// How a line of the help text is shown.
#[derive(PartialEq, Eq, Structural, Clone, Copy, Debug)]
pub enum HelpLineKind {
    /// The title of a group of commands, shown reversed.
    Group,
    /// The selected command, shown highlighted.
    Selected,
    /// Any other command.
    Plain,
}

/// A line of the help text.
pub struct HelpLine {
    pub text: String,
    pub kind: HelpLineKind,
}

/// `s` preceded by spaces up to `width` characters, as `{:width$}` writes a number.
pub open spec fn pad_left(s: Seq<char>, width: nat) -> Seq<char> {
    if s.len() >= width {
        s
    } else {
        Seq::new((width - s.len()) as nat, |i: int| ' ') + s
    }
}

/// The text of the line of a command: a space, the command's name, then the width of
/// the help text right-aligned in a field of that width.
pub open spec fn command_line_text(name: Seq<char>, width: nat) -> Seq<char> {
    seq![' '] + name + pad_left(decimal(width), width)
}

/// Whether the command at `i` starts a group: it is the first, or its group differs from
/// the one before it.
pub open spec fn starts_group(cmds: Seq<CommandInfo>, i: int) -> bool {
    i == 0 || cmds[i - 1].text.group@ != cmds[i].text.group@
}

/// The lines of the help text for the first `n` commands: each run of commands of the
/// same group is preceded by the group's title; the command at `selection` is marked.
pub open spec fn help_lines(cmds: Seq<CommandInfo>, n: int, selection: int, width: nat) -> Seq<(Seq<char>, HelpLineKind)>
    decreases n,
{
    if n <= 0 {
        Seq::empty()
    } else {
        let before = help_lines(cmds, n - 1, selection, width);
        let titled = if starts_group(cmds, n - 1) {
            before.push((cmds[n - 1].text.group@, HelpLineKind::Group))
        } else {
            before
        };
        titled.push(
            (
                command_line_text(cmds[n - 1].text.name@, width),
                if selection == n - 1 {
                    HelpLineKind::Selected
                } else {
                    HelpLineKind::Plain
                },
            ),
        )
    }
}

/// The text and kind of each line.
pub open spec fn lines_view(lines: Seq<HelpLine>) -> Seq<(Seq<char>, HelpLineKind)> {
    lines.map_values(|l: HelpLine| (l.text@, l.kind))
}

/// The selection after one step down (`inc`) or up, kept between zero and the last
/// command (as a `u16`).
pub open spec fn scrolled_selection(selection: u16, inc: bool, len: nat) -> u16 {
    let moved: u16 = if inc {
        if selection == u16::MAX {
            u16::MAX
        } else {
            (selection + 1) as u16
        }
    } else {
        if selection == 0 {
            0
        } else {
            (selection - 1) as u16
        }
    };
    let last = (if len == 0 {
        0
    } else {
        len - 1
    }) as u16;
    if moved <= last {
        moved
    } else {
        last
    }
}

/// Scrolling keeps the selection on one of the commands, and a step down followed by a
/// step up comes back, unless the first step was stopped by the last command.
pub proof fn lemma_scroll_stays_in_list(selection: u16, inc: bool, len: nat)
    requires
        0 < len <= 65536,
        selection < len,
    ensures
        scrolled_selection(selection, inc, len) < len,
        selection + 1 < len ==> scrolled_selection(scrolled_selection(selection, true, len), false, len)
            == selection,
{
}

/// The help window: a list of the commands, grouped, that can be scrolled.
pub struct HelpComponent {
    cmds: Vec<CommandInfo>,
    visible: bool,
    selection: u16,
    config: Config,
}

impl HelpComponent {
    pub closed spec fn commands(&self) -> Seq<CommandInfo> {
        self.cmds@
    }

    pub closed spec fn spec_config(&self) -> Config {
        self.config
    }

    pub closed spec fn spec_visible(&self) -> bool {
        self.visible
    }

    pub closed spec fn spec_selection(&self) -> u16 {
        self.selection
    }

    /// What a key does (see `key_event`).
    pub open spec fn key_step(self, next: Self, key: Key, r: EventState) -> bool {
        let kc = self.spec_config().key_config;
        let sel = self.spec_selection();
        let len = self.commands().len();
        &&& next.commands() == self.commands()
        &&& next.spec_config() == self.spec_config()
        &&& if self.spec_visible() {
            if key == kc.exit {
                r == EventState::Consumed && !next.spec_visible() && next.spec_selection() == sel
            } else if key == kc.move_down {
                r == EventState::Consumed && next.spec_visible() && next.spec_selection()
                    == scrolled_selection(sel, true, len)
            } else if key == kc.move_up {
                r == EventState::Consumed && next.spec_visible() && next.spec_selection()
                    == scrolled_selection(sel, false, len)
            } else {
                r == EventState::NotConsumed && next.spec_visible() && next.spec_selection() == sel
            }
        } else if key == kc.help {
            r == EventState::Consumed && next.spec_visible() && next.spec_selection() == sel
        } else {
            r == EventState::NotConsumed && !next.spec_visible() && next.spec_selection() == sel
        }
    }

    /// A hidden help window without commands.
    pub fn new(config: Config) -> (r: Self)
        ensures
            r.commands() == Seq::<CommandInfo>::empty(),
            !r.spec_visible(),
            r.spec_selection() == 0,
            r.spec_config() == config,
    {
        Self { cmds: Vec::new(), visible: false, selection: 0, config }
    }

    /// Lists the commands of `cmds` that are not hidden from help, in their order.
    pub fn set_commands(&mut self, cmds: Vec<CommandInfo>)
        ensures
            final(self).commands() == cmds@.filter(|c: CommandInfo| !c.text.hide_help),
            final(self).spec_visible() == old(self).spec_visible(),
            final(self).spec_selection() == old(self).spec_selection(),
            final(self).spec_config() == old(self).spec_config(),
    {
        let ghost all = cmds@;
        let ghost pred = |c: CommandInfo| !c.text.hide_help;
        let total = cmds.len();
        let mut rest = cmds;
        let mut kept: Vec<CommandInfo> = Vec::new();
        let mut k: usize = 0;
        while rest.len() > 0
            invariant
                k + rest@.len() == all.len(),
                all.len() == total,
                rest@ == all.skip(k as int),
                pred == (|c: CommandInfo| !c.text.hide_help),
                kept@ == all.take(k as int).filter(pred),
            decreases rest@.len(),
        {
            let command = rest.remove(0);
            proof {
                assert(all.take(k + 1) =~= all.take(k as int).push(all[k as int]));
                all.take(k as int).lemma_filter_push(all[k as int], pred);
            }
            if !command.text.hide_help {
                kept.push(command);
            }
            k = k + 1;
            assert(rest@ =~= all.skip(k as int));
        }
        assert(all.take(k as int) =~= all);
        self.cmds = kept;
    }

    fn scroll_selection(&mut self, inc: bool)
        ensures
            final(self).selection == scrolled_selection(old(self).selection, inc, old(self).cmds@.len()),
            final(self).cmds == old(self).cmds,
            final(self).visible == old(self).visible,
            final(self).spec_config() == old(self).spec_config(),
    {
        let moved = if inc {
            self.selection.saturating_add(1)
        } else {
            self.selection.saturating_sub(1)
        };
        let last = self.cmds.len().saturating_sub(1) as u16;
        self.selection = if moved <= last {
            moved
        } else {
            last
        };
    }

    /// The lines of the help text for a window `width` columns wide.
    pub fn get_text(&self, width: usize) -> (r: Vec<HelpLine>)
        requires
            width <= u64::MAX,
        ensures
            lines_view(r@) == help_lines(self.commands(), self.commands().len() as int, self.spec_selection() as int, width as nat),
    {
        let ghost cmds = self.cmds@;
        let ghost sel = self.selection as int;
        let runs = group_runs(&self.cmds);
        let ghost rs = runs_view(runs@);
        let mut txt: Vec<HelpLine> = Vec::new();
        let n = self.cmds.len();
        let mut k: usize = 0;
        let mut pos: usize = 0;
        while k < runs.len()
            invariant
                n == cmds.len(),
                k <= runs@.len(),
                cmds == self.cmds@,
                sel == self.selection as int,
                width <= u64::MAX,
                rs == runs_view(runs@),
                splits_into_runs(cmds, rs),
                k < runs@.len() ==> pos == rs[k as int][0],
                k == runs@.len() ==> pos == cmds.len(),
                pos <= cmds.len(),
                lines_view(txt@) == help_lines(cmds, pos as int, sel, width as nat),
            decreases runs@.len() - k,
        {
            let run = &runs[k];
            assert(run@ == rs[k as int]);
            let mut j: usize = 0;
            while j < run.len()
                invariant
                    n == cmds.len(),
                    k < runs@.len(),
                    run@ == rs[k as int],
                    j <= run@.len(),
                    cmds == self.cmds@,
                    sel == self.selection as int,
                    width <= u64::MAX,
                    rs == runs_view(runs@),
                    splits_into_runs(cmds, rs),
                    pos == rs[k as int][0] + j,
                    lines_view(txt@) == help_lines(cmds, pos as int, sel, width as nat),
                decreases run@.len() - j,
            {
                let idx = run[j];
                assert(idx == rs[k as int][j as int]);
                assert(idx == pos && idx < cmds.len());
                assert(starts_group(cmds, pos as int) == (j == 0)) by {
                    if j > 0 {
                        assert(cmds[rs[k as int][j as int] as int].text.group@ == cmds[rs[k as int][j as int] - 1].text.group@);
                    } else if k > 0 {
                        assert(cmds[rs[k as int][0] as int].text.group@ != cmds[rs[k as int][0] - 1].text.group@);
                    }
                }
                let ghost before = txt@;
                if j == 0 {
                    txt.push(HelpLine { text: String::from_str(self.cmds[idx].text.group), kind: HelpLineKind::Group });
                    assert(lines_view(txt@) =~= lines_view(before).push((cmds[pos as int].text.group@, HelpLineKind::Group)));
                }
                let ghost titled = txt@;
                proof {
                    reveal_strlit(" ");
                }
                let mut text = String::from_str(" ");
                text.append(self.cmds[idx].text.name.as_str());
                let number = padded_decimal(width);
                text.append(number.as_str());
                let kind = if idx == self.selection as usize {
                    HelpLineKind::Selected
                } else {
                    HelpLineKind::Plain
                };
                assert(text@ == command_line_text(cmds[pos as int].text.name@, width as nat));
                txt.push(HelpLine { text, kind });
                assert(lines_view(txt@) =~= lines_view(titled).push((command_line_text(cmds[pos as int].text.name@, width as nat), kind)));
                pos = pos + 1;
                j = j + 1;
            }
            proof {
                if k + 1 < runs@.len() {
                    assert(rs[k + 1][0] == rs[k as int][0] + rs[k as int].len());
                    assert(rs[k + 1].len() > 0);
                    assert(rs[k + 1][0] < cmds.len());
                } else {
                    assert(rs.last() == rs[k as int]);
                }
            }
            k = k + 1;
        }
        txt
    }

    /// The selected command.
    pub fn selection(&self) -> (r: u16)
        ensures
            r == self.spec_selection(),
    {
        self.selection
    }

    /// The number of commands listed.
    pub fn commands_len(&self) -> (r: usize)
        ensures
            r == self.commands().len(),
    {
        self.cmds.len()
    }

    pub fn is_visible(&self) -> (r: bool)
        ensures
            r == self.spec_visible(),
    {
        self.visible
    }

    /// Hides the window.
    pub fn hide_popup(&mut self)
        ensures
            !final(self).spec_visible(),
            final(self).commands() == old(self).commands(),
            final(self).spec_selection() == old(self).spec_selection(),
            final(self).spec_config() == old(self).spec_config(),
    {
        self.visible = false;
    }

    /// Shows the window.
    pub fn show(&mut self)
        ensures
            final(self).spec_visible(),
            final(self).commands() == old(self).commands(),
            final(self).spec_selection() == old(self).spec_selection(),
            final(self).spec_config() == old(self).spec_config(),
    {
        self.visible = true;
    }

    /// While shown, the exit key hides the window and down and up scroll it; while hidden,
    /// the help key shows it. Any other key is not used.
    pub fn key_event(&mut self, key: Key) -> (r: EventState)
        ensures
            old(self).key_step(*final(self), key, r),
    {
        if self.visible {
            if key == self.config.key_config.exit {
                self.hide_popup();
                return EventState::Consumed;
            } else if key == self.config.key_config.move_down {
                self.scroll_selection(true);
                return EventState::Consumed;
            } else if key == self.config.key_config.move_up {
                self.scroll_selection(false);
                return EventState::Consumed;
            }
        } else if key == self.config.key_config.help {
            self.show();
            return EventState::Consumed;
        }
        EventState::NotConsumed
    }

    /// The help window uses no mouse event.
    pub fn mouse_event(&mut self, _mouse: Mouse) -> (r: EventState)
        ensures
            r == EventState::NotConsumed,
            *final(self) == *old(self),
    {
        EventState::NotConsumed
    }

    /// The first line of the text on show: the selection stays in view, a third of the
    /// window's height from its top.
    pub fn scroll(&self) -> (r: u16)
        ensures
            r == (if self.spec_selection() >= HELP_HEIGHT / 3 {
                self.spec_selection() - HELP_HEIGHT / 3
            } else {
                0
            }),
    {
        self.selection.saturating_sub(HELP_HEIGHT / 3)
    }

    /// Where the window stands on a screen of the given size: centered, at most its own
    /// size.
    pub fn area(&self, screen_width: u16, screen_height: u16) -> (r: Area)
        ensures
            r == spec_centered_area(screen_width, screen_height, HELP_WIDTH, HELP_HEIGHT),
    {
        centered_area(screen_width, screen_height, HELP_WIDTH, HELP_HEIGHT)
    }
}

/// The positions of the commands, run by run.
pub open spec fn runs_view(runs: Seq<Vec<usize>>) -> Seq<Seq<usize>> {
    runs.map_values(|run: Vec<usize>| run@)
}

/// `runs` splits the positions of `cmds` into runs of consecutive commands of one group:
/// every position in order, each run non-empty, one group within a run, and another
/// group at the start of each run but the first.
pub open spec fn splits_into_runs(cmds: Seq<CommandInfo>, runs: Seq<Seq<usize>>) -> bool {
    &&& (runs.len() == 0) == (cmds.len() == 0)
    &&& runs.len() > 0 ==> runs[0][0] == 0 && runs.last()[0] + runs.last().len() == cmds.len()
    &&& forall|k: int| 0 <= k < runs.len() ==> #[trigger] runs[k].len() > 0
    &&& forall|k: int, j: int|
        0 <= k < runs.len() && 0 <= j < runs[k].len() ==> #[trigger] runs[k][j] == runs[k][0] + j
            && runs[k][j] < cmds.len()
    &&& forall|k: int| 0 <= k < runs.len() - 1 ==> #[trigger] runs[k + 1][0] == runs[k][0] + runs[k].len()
    &&& forall|k: int, j: int|
        0 <= k < runs.len() && 0 < j < runs[k].len() ==> cmds[#[trigger] runs[k][j] as int].text.group@
            == cmds[runs[k][j] - 1].text.group@
    &&& forall|k: int| 0 < k < runs.len() ==> cmds[#[trigger] runs[k][0] as int].text.group@ != cmds[runs[k][0] - 1].text.group@
}

/// Groups the commands with `Itertools::chunk_by` on their group names and gives the
/// positions of the commands of each group, in order. Its documentation says that
/// consecutive elements with the same key form one group; the contract states that of
/// the positions (`splits_into_runs`).
#[verifier::external_body]
fn group_runs(cmds: &Vec<CommandInfo>) -> (runs: Vec<Vec<usize>>)
    ensures
        splits_into_runs(cmds@, runs_view(runs@)),
{
    let chunks = cmds.iter().enumerate().chunk_by(|entry: &(usize, &CommandInfo)| entry.1.text.group);
    chunks.into_iter().map(|(_, run)| run.map(|entry| entry.0).collect()).collect()
}


/// `width` in decimal, right-aligned in a field of `width` characters.
fn padded_decimal(width: usize) -> (s: String)
    requires
        width <= u64::MAX,
    ensures
        s@ == pad_left(decimal(width as nat), width as nat),
{
    let digits = decimal_string(width as u64);
    let len = digits.as_str().unicode_len();
    proof {
        reveal_strlit("");
        reveal_strlit(" ");
    }
    let mut s = String::from_str("");
    if len < width {
        let mut i: usize = 0;
        while i < width - len
            invariant
                i <= width - len,
                s@ == Seq::new(i as nat, |j: int| ' '),
            decreases width - len - i,
        {
            proof {
                reveal_strlit(" ");
            }
            s.append(" ");
            assert(s@ =~= Seq::new((i + 1) as nat, |j: int| ' '));
            i = i + 1;
        }
    }
    s.append(digits.as_str());
    assert(s@ =~= pad_left(decimal(width as nat), width as nat));
    s
}

} // verus!
