use vstd::prelude::*;
use crate::list::{StatefulList, items_view};

verus! {

/// A program and the argument string it is started with.
pub type ShellCommand = (&'static str, &'static str);

/// What pressing Enter asks the terminal front end to do.
#[derive(Clone, Copy, Debug, PartialEq, Eq, Structural)]
pub enum ActionKind {
    /// Nothing is run.
    Nothing,
    /// Run the commands, in order.
    Run,
    /// Run the commands, in order, but only inside an iOS project directory.
    RunInIosProject,
    /// Leave the program.
    Exit,
}

/// The outcome of Enter: what to do, and the commands it concerns.
pub struct EnterAction {
    pub kind: ActionKind,
    pub commands: Vec<ShellCommand>,
}

/// The tab titles, left to right: development, maintenance, cache
/// management, devices, miscellaneous, and exit.
pub open spec fn default_titles() -> Seq<&'static str> {
    seq!["exec", "checks", "cleanup", "config", "ios", "exit"]
}

/// The command lists of the tabs, each entry by its text and group number.
pub open spec fn default_items() -> Seq<Seq<(Seq<char>, i32)>> {
    seq![
        seq![("flutter run"@, 1i32), ("flutter pub get"@, 1i32), ("flutter channel"@, 1i32)],
        seq![("flutter clean"@, 2i32), ("flutter build"@, 2i32), ("flutter doctor"@, 2i32)],
        seq![("flutter clean cache"@, 3i32), ("flutter repair"@, 3i32), ("flutter remove cache"@, 3i32)],
        seq![("flutter devices"@, 4i32), ("flutter logs"@, 4i32), ("flutter emulators"@, 4i32)],
        seq![
            ("flutter install"@, 5i32),
            ("flutter pod clean up"@, 5i32),
            ("flutter deintegrate"@, 5i32),
            ("flutter repo update"@, 5i32),
        ],
        seq![("exit"@, 6i32)],
    ]
}

/// What Enter does on tab `tab` with row `sel` selected: every listed row
/// runs its command, the iOS project rows only inside an iOS project (the
/// miscellaneous tab also acts on a fifth row, which cleans inside `ios`),
/// and the row of the last tab leaves the program.
pub open spec fn planned_kind(tab: usize, sel: Option<usize>) -> ActionKind {
    match sel {
        None => ActionKind::Nothing,
        Some(row) => {
            if tab <= 3 && row <= 2 {
                ActionKind::Run
            } else if tab == 4 && row == 0 {
                ActionKind::Run
            } else if tab == 4 && 1 <= row <= 4 {
                ActionKind::RunInIosProject
            } else if tab == 5 && row == 0 {
                ActionKind::Exit
            } else {
                ActionKind::Nothing
            }
        },
    }
}

/// The commands Enter concerns on tab `tab` with row `sel` selected.
pub open spec fn planned_commands(tab: usize, sel: Option<usize>) -> Seq<ShellCommand> {
    match sel {
        None => seq![],
        Some(row) => {
            if tab == 0 {
                if row == 0 {
                    seq![("flutter", "run")]
                } else if row == 1 {
                    seq![("flutter", "pub get")]
                } else if row == 2 {
                    seq![("flutter", "channel stable")]
                } else {
                    seq![]
                }
            } else if tab == 1 {
                if row == 0 {
                    seq![("flutter", "clean")]
                } else if row == 1 {
                    seq![("flutter", "build")]
                } else if row == 2 {
                    seq![("flutter", "doctor")]
                } else {
                    seq![]
                }
            } else if tab == 2 {
                if row == 0 {
                    seq![("flutter", "pub cache clean")]
                } else if row == 1 {
                    seq![("flutter", "cache repair")]
                } else if row == 2 {
                    seq![("rm", "~/flutter/.pub-cache")]
                } else {
                    seq![]
                }
            } else if tab == 3 {
                if row == 0 {
                    seq![("flutter", "devices")]
                } else if row == 1 {
                    seq![("flutter", "logs")]
                } else if row == 2 {
                    seq![("flutter", "emulators")]
                } else {
                    seq![]
                }
            } else if tab == 4 {
                if row == 0 {
                    seq![("flutter", "install")]
                } else if row == 1 {
                    seq![("flutter", "clean && cd ios && rm Podfile Podfile.lock && rm -rf Pods/ && cd .. && flutter pub get")]
                } else if row == 2 {
                    seq![("cd", "ios"), ("flutter", "deintegrate")]
                } else if row == 3 {
                    seq![("cd", "ios"), ("flutter", "repo-update")]
                } else if row == 4 {
                    seq![("cd", "ios"), ("flutter", "clean")]
                } else {
                    seq![]
                }
            } else {
                seq![]
            }
        },
    }
}

/// The tab after `index` among `n` tabs, wrapping to the first.
pub open spec fn next_tab(index: int, n: int) -> int {
    (index + 1) % n
}

/// The tab before `index` among `n` tabs, wrapping to the last.
pub open spec fn previous_tab(index: int, n: int) -> int {
    if index > 0 {
        index - 1
    } else {
        n - 1
    }
}

/// The whole screen state: the tabs, the tab shown, and the command lists.
pub struct App {
    pub titles: Vec<&'static str>,
    pub index: usize,
    pub items: StatefulList,
    pub command_running: bool,
    pub clear_output: bool,
}

fn entry(text: &str, group: i32) -> (e: (String, i32))
    ensures
        e.0@ == text@,
        e.1 == group,
{
    (String::from_str(text), group)
}

fn row3(a: &str, b: &str, c: &str, group: i32) -> (r: Vec<(String, i32)>)
    ensures
        r@.len() == 3,
        r@[0].0@ == a@,
        r@[1].0@ == b@,
        r@[2].0@ == c@,
        r@[0].1 == group && r@[1].1 == group && r@[2].1 == group,
{
    let mut r: Vec<(String, i32)> = Vec::new();
    r.push(entry(a, group));
    r.push(entry(b, group));
    r.push(entry(c, group));
    r
}

fn run_one(kind: ActionKind, program: &'static str, arg: &'static str) -> (a: EnterAction)
    ensures
        a.kind == kind,
        a.commands@ == seq![(program, arg)],
{
    let mut commands: Vec<ShellCommand> = Vec::new();
    commands.push((program, arg));
    EnterAction { kind, commands }
}

fn run_in_ios_dir(arg: &'static str) -> (a: EnterAction)
    ensures
        a.kind == ActionKind::RunInIosProject,
        a.commands@ == seq![("cd", "ios"), ("flutter", arg)],
{
    let mut commands: Vec<ShellCommand> = Vec::new();
    commands.push(("cd", "ios"));
    commands.push(("flutter", arg));
    EnterAction { kind: ActionKind::RunInIosProject, commands }
}

fn no_action(kind: ActionKind) -> (a: EnterAction)
    ensures
        a.kind == kind,
        a.commands@ == Seq::<ShellCommand>::empty(),
{
    EnterAction { kind, commands: Vec::new() }
}

/// The action for row `row` of tab `tab`.
fn plan(tab: usize, row: usize) -> (a: EnterAction)
    ensures
        a.kind == planned_kind(tab, Some(row)),
        a.commands@ == planned_commands(tab, Some(row)),
{
    let run = ActionKind::Run;
    let ios = ActionKind::RunInIosProject;
    if tab == 0 {
        if row == 0 {
            run_one(run, "flutter", "run")
        } else if row == 1 {
            run_one(run, "flutter", "pub get")
        } else if row == 2 {
            run_one(run, "flutter", "channel stable")
        } else {
            no_action(ActionKind::Nothing)
        }
    } else if tab == 1 {
        if row == 0 {
            run_one(run, "flutter", "clean")
        } else if row == 1 {
            run_one(run, "flutter", "build")
        } else if row == 2 {
            run_one(run, "flutter", "doctor")
        } else {
            no_action(ActionKind::Nothing)
        }
    } else if tab == 2 {
        if row == 0 {
            run_one(run, "flutter", "pub cache clean")
        } else if row == 1 {
            run_one(run, "flutter", "cache repair")
        } else if row == 2 {
            run_one(run, "rm", "~/flutter/.pub-cache")
        } else {
            no_action(ActionKind::Nothing)
        }
    } else if tab == 3 {
        if row == 0 {
            run_one(run, "flutter", "devices")
        } else if row == 1 {
            run_one(run, "flutter", "logs")
        } else if row == 2 {
            run_one(run, "flutter", "emulators")
        } else {
            no_action(ActionKind::Nothing)
        }
    } else if tab == 4 {
        if row == 0 {
            run_one(run, "flutter", "install")
        } else if row == 1 {
            run_one(ios, "flutter", "clean && cd ios && rm Podfile Podfile.lock && rm -rf Pods/ && cd .. && flutter pub get")
        } else if row == 2 {
            run_in_ios_dir("deintegrate")
        } else if row == 3 {
            run_in_ios_dir("repo-update")
        } else if row == 4 {
            run_in_ios_dir("clean")
        } else {
            no_action(ActionKind::Nothing)
        }
    } else if tab == 5 && row == 0 {
        no_action(ActionKind::Exit)
    } else {
        no_action(ActionKind::Nothing)
    }
}

impl App {
    /// The start-up screen: the first tab, nothing selected, nothing running.
    pub fn new() -> (app: App)
        ensures
            app.titles@ == default_titles(),
            app.index == 0,
            items_view(app.items.items@) == default_items(),
            app.items.items@.len() == 6,
            forall|i: int| 0 <= i < 6 ==> (#[trigger] app.items.items@[i])@.len() == default_items()[i].len(),
            app.items.state is None,
            app.items.inner_states@.len() == 6,
            forall|i: int| 0 <= i < 6 ==> (#[trigger] app.items.inner_states@[i]).selected is None,
            app.items.level == 0,
            app.items.inner_index == 0,
            !app.command_running,
            !app.clear_output,
    {
        let mut titles: Vec<&'static str> = Vec::new();
        titles.push("exec");
        titles.push("checks");
        titles.push("cleanup");
        titles.push("config");
        titles.push("ios");
        titles.push("exit");
        let mut items: Vec<Vec<(String, i32)>> = Vec::new();
        items.push(row3("flutter run", "flutter pub get", "flutter channel", 1));
        items.push(row3("flutter clean", "flutter build", "flutter doctor", 2));
        items.push(row3("flutter clean cache", "flutter repair", "flutter remove cache", 3));
        items.push(row3("flutter devices", "flutter logs", "flutter emulators", 4));
        let mut ios: Vec<(String, i32)> = Vec::new();
        ios.push(entry("flutter install", 5));
        ios.push(entry("flutter pod clean up", 5));
        ios.push(entry("flutter deintegrate", 5));
        ios.push(entry("flutter repo update", 5));
        items.push(ios);
        let mut exit: Vec<(String, i32)> = Vec::new();
        exit.push(entry("exit", 6));
        items.push(exit);
        let list = StatefulList::with_items(items);
        let app = App { titles, index: 0, items: list, command_running: false, clear_output: false };
        assert(app.titles@ =~= default_titles());
        assert(items_view(app.items.items@) =~= default_items()) by {
            assert forall|i: int| 0 <= i < 6 implies #[trigger] items_view(app.items.items@)[i] =~= default_items()[i] by {
            }
        }
        app
    }

    /// Shows the next tab, wrapping from the last to the first.
    pub fn next(&mut self)
        requires
            old(self).titles@.len() > 0,
            old(self).index < usize::MAX,
        ensures
            final(self).index == next_tab(old(self).index as int, old(self).titles@.len() as int),
            final(self).titles == old(self).titles,
            final(self).items == old(self).items,
            final(self).command_running == old(self).command_running,
            final(self).clear_output == old(self).clear_output,
    {
        self.index = (self.index + 1) % self.titles.len();
    }

    /// Shows the previous tab, wrapping from the first to the last.
    pub fn previous(&mut self)
        requires
            old(self).index == 0 ==> old(self).titles@.len() > 0,
        ensures
            final(self).index == previous_tab(old(self).index as int, old(self).titles@.len() as int),
            final(self).titles == old(self).titles,
            final(self).items == old(self).items,
            final(self).command_running == old(self).command_running,
            final(self).clear_output == old(self).clear_output,
    {
        if self.index > 0 {
            self.index = self.index - 1;
        } else {
            self.index = self.titles.len() - 1;
        }
    }
    /// Enter on the shown tab: decides what the selected row runs. The front
    /// end clears the screen and the output pane first, then performs the
    /// action. No command is left marked as running afterwards.
    pub fn enter(&mut self) -> (action: EnterAction)
        requires
            old(self).index < old(self).items.inner_states@.len(),
        ensures
            action.kind == planned_kind(
                old(self).index,
                old(self).items.inner_states@[old(self).index as int].selected,
            ),
            action.commands@ == planned_commands(
                old(self).index,
                old(self).items.inner_states@[old(self).index as int].selected,
            ),
            !final(self).command_running,
            final(self).index == old(self).index,
            final(self).titles == old(self).titles,
            final(self).items == old(self).items,
            final(self).clear_output == old(self).clear_output,
    {
        self.command_running = true;
        let action = match self.items.inner_states[self.index].selected {
            Some(row) => plan(self.index, row),
            None => no_action(ActionKind::Nothing),
        };
        self.command_running = false;
        action
    }
}

} // verus!
