//! Group commands: which module a command names, which bots of the swarm it
//! reaches, and the stop and start steps it takes on each of them.

use vstd::prelude::*;
use crate::text::text_eq;
use vstd::string::*;

verus! {

/// The modules a group command can address.
#[derive(Clone, Copy, Debug, PartialEq, Eq, Structural)]
pub enum ModuleKind {
    Chat,
    Action,
    Inventory,
    Movement,
    AntiAfk,
    Flight,
    Killaura,
    Scaffold,
    AntiFall,
    BowAim,
    Stealer,
    Miner,
    Farmer,
}

/// The modules that are simply switched on and off, each running as one
/// task registered under the module's name.
#[derive(Clone, Copy, Debug, PartialEq, Eq, Structural)]
pub enum SwitchModule {
    Movement,
    AntiAfk,
    Flight,
    Killaura,
    Scaffold,
    AntiFall,
    BowAim,
    Stealer,
    Miner,
    Farmer,
}

/// A group command with the part of its options that decides what is done.
#[derive(Clone, Debug)]
pub enum ModuleCommand {
    /// Chat: `mode` is "message" or "spamming".
    Chat { mode: String, state: bool },
    /// A repeated action: `action` is "jumping", "shifting" or "waving".
    Action { action: String, state: bool },
    /// A one-off inventory action.
    Inventory,
    /// Switch one of the other modules on or off.
    Switch { module: SwitchModule, state: bool },
}

/// What a started task runs.
#[derive(Clone, Copy, Debug, PartialEq, Eq, Structural)]
pub enum Routine {
    ChatMessage,
    ChatSpamming,
    Jumping,
    Shifting,
    Waving,
    InventoryAction,
    Module(SwitchModule),
    /// A task that does nothing: the mode or action is not known.
    Idle,
}

/// One step a command takes on a bot.
#[derive(Clone, Copy, Debug, PartialEq, Eq, Structural)]
pub enum ControlStep {
    /// Stop the module's running task.
    Stop,
    /// Start a task running `routine`; when `register` holds it is recorded
    /// as the module's task, so that a later stop ends it.
    Start { routine: Routine, register: bool },
}

/// What a command does: the indices of the bots it reaches, and the steps
/// taken on each of them, in order.
pub struct ControlPlan {
    pub bots: Vec<usize>,
    pub steps: Vec<ControlStep>,
    /// The key under which the module's task is stopped and recorded.
    pub key: String,
}

/// The module a command belongs to.
pub open spec fn command_kind(cmd: ModuleCommand) -> ModuleKind {
    match cmd {
        ModuleCommand::Chat { .. } => ModuleKind::Chat,
        ModuleCommand::Action { .. } => ModuleKind::Action,
        ModuleCommand::Inventory => ModuleKind::Inventory,
        ModuleCommand::Switch { module, .. } => match module {
            SwitchModule::Movement => ModuleKind::Movement,
            SwitchModule::AntiAfk => ModuleKind::AntiAfk,
            SwitchModule::Flight => ModuleKind::Flight,
            SwitchModule::Killaura => ModuleKind::Killaura,
            SwitchModule::Scaffold => ModuleKind::Scaffold,
            SwitchModule::AntiFall => ModuleKind::AntiFall,
            SwitchModule::BowAim => ModuleKind::BowAim,
            SwitchModule::Stealer => ModuleKind::Stealer,
            SwitchModule::Miner => ModuleKind::Miner,
            SwitchModule::Farmer => ModuleKind::Farmer,
        },
    }
}

/// The name a switched module is commanded and recorded by.
pub open spec fn switch_name(module: SwitchModule) -> Seq<char> {
    match module {
        SwitchModule::Movement => "movement"@,
        SwitchModule::AntiAfk => "anti-afk"@,
        SwitchModule::Flight => "flight"@,
        SwitchModule::Killaura => "killaura"@,
        SwitchModule::Scaffold => "scaffold"@,
        SwitchModule::AntiFall => "anti-fall"@,
        SwitchModule::BowAim => "bow-aim"@,
        SwitchModule::Stealer => "stealer"@,
        SwitchModule::Miner => "miner"@,
        SwitchModule::Farmer => "farmer"@,
    }
}

/// The key of a command's task: "spamming" for chat, the action's name for
/// an action, "inventory" (never recorded) for the inventory action, and the
/// module's name for a switched module.
pub open spec fn task_key_spec(cmd: ModuleCommand) -> Seq<char> {
    match cmd {
        ModuleCommand::Chat { .. } => "spamming"@,
        ModuleCommand::Action { action, .. } => action@,
        ModuleCommand::Inventory => "inventory"@,
        ModuleCommand::Switch { module, .. } => switch_name(module),
    }
}

/// `plan` is what `cmd` does for `group` among bots of the recorded groups
/// `bot_groups`: every bot in the group, in order, with the command's steps
/// and task key.
pub open spec fn plan_ok(
    cmd: ModuleCommand,
    bot_groups: Seq<Option<String>>,
    group: Seq<char>,
    plan: ControlPlan,
) -> bool {
    &&& plan.steps@ == control_steps_spec(cmd)
    &&& plan.key@ == task_key_spec(cmd)
    &&& forall|k: int|
        0 <= k < plan.bots@.len() ==> (#[trigger] plan.bots@[k]) < bot_groups.len() && in_group(
            bot_groups[plan.bots@[k] as int],
            group,
        )
    &&& forall|i: int|
        0 <= i < bot_groups.len() && in_group(bot_groups[i], group) ==> plan.bots@.contains(
            i as usize,
        )
    &&& forall|a: int, b: int|
        0 <= a < b < plan.bots@.len() ==> #[trigger] plan.bots@[a] < #[trigger] plan.bots@[b]
}

/// The module a command name addresses.
pub open spec fn module_kind_spec(name: Seq<char>) -> Option<ModuleKind> {
    if name == "chat"@ {
        Some(ModuleKind::Chat)
    } else if name == "action"@ {
        Some(ModuleKind::Action)
    } else if name == "inventory"@ {
        Some(ModuleKind::Inventory)
    } else if name == "movement"@ {
        Some(ModuleKind::Movement)
    } else if name == "anti-afk"@ {
        Some(ModuleKind::AntiAfk)
    } else if name == "flight"@ {
        Some(ModuleKind::Flight)
    } else if name == "killaura"@ {
        Some(ModuleKind::Killaura)
    } else if name == "scaffold"@ {
        Some(ModuleKind::Scaffold)
    } else if name == "anti-fall"@ {
        Some(ModuleKind::AntiFall)
    } else if name == "bow-aim"@ {
        Some(ModuleKind::BowAim)
    } else if name == "stealer"@ {
        Some(ModuleKind::Stealer)
    } else if name == "miner"@ {
        Some(ModuleKind::Miner)
    } else if name == "farmer"@ {
        Some(ModuleKind::Farmer)
    } else {
        None
    }
}

/// What the task started by a command runs.
pub open spec fn routine_spec(cmd: ModuleCommand) -> Routine {
    match cmd {
        ModuleCommand::Chat { mode, .. } => if mode@ == "message"@ {
            Routine::ChatMessage
        } else if mode@ == "spamming"@ {
            Routine::ChatSpamming
        } else {
            Routine::Idle
        },
        ModuleCommand::Action { action, .. } => if action@ == "jumping"@ {
            Routine::Jumping
        } else if action@ == "shifting"@ {
            Routine::Shifting
        } else if action@ == "waving"@ {
            Routine::Waving
        } else {
            Routine::Idle
        },
        ModuleCommand::Inventory => Routine::InventoryAction,
        ModuleCommand::Switch { module, .. } => Routine::Module(module),
    }
}

/// The steps a command takes on each bot it reaches. Chat only stops and
/// records spamming; an action and a switched module are stopped first and
/// then started again or stopped again; the inventory action just runs.
pub open spec fn control_steps_spec(cmd: ModuleCommand) -> Seq<ControlStep> {
    match cmd {
        ModuleCommand::Chat { mode, state } => {
            let spamming = mode@ == "spamming"@;
            (if spamming {
                seq![ControlStep::Stop]
            } else {
                seq![]
            }) + (if state {
                seq![ControlStep::Start { routine: routine_spec(cmd), register: spamming }]
            } else if spamming {
                seq![ControlStep::Stop]
            } else {
                seq![]
            })
        },
        ModuleCommand::Action { state, .. } => seq![ControlStep::Stop] + (if state {
            seq![ControlStep::Start { routine: routine_spec(cmd), register: true }]
        } else {
            seq![ControlStep::Stop]
        }),
        ModuleCommand::Inventory => seq![
            ControlStep::Start { routine: Routine::InventoryAction, register: false },
        ],
        ModuleCommand::Switch { state, .. } => seq![ControlStep::Stop] + (if state {
            seq![ControlStep::Start { routine: routine_spec(cmd), register: true }]
        } else {
            seq![ControlStep::Stop]
        }),
    }
}

/// A bot takes part in a command for `group` unless it is known to belong
/// to another group; a bot with no recorded group takes part.
pub open spec fn in_group(bot_group: Option<String>, group: Seq<char>) -> bool {
    match bot_group {
        Some(g) => g@ == group,
        None => true,
    }
}

/// The on/off state a command carries; the inventory action has none.
pub open spec fn command_state(cmd: ModuleCommand) -> Option<bool> {
    match cmd {
        ModuleCommand::Chat { state, .. } => Some(state),
        ModuleCommand::Action { state, .. } => Some(state),
        ModuleCommand::Inventory => None,
        ModuleCommand::Switch { state, .. } => Some(state),
    }
}

/// An action command starts the routine its action names: "jumping" jumps,
/// "shifting" shifts and "waving" waves, whether it is switched on or off;
/// two action commands that start the same known routine name the same
/// action, and any other name starts a task that does nothing.
pub proof fn lemma_action_routine(action: String, state: bool, other: String, other_state: bool)
    ensures
        action@ == "jumping"@ ==> routine_spec(ModuleCommand::Action { action, state }) == Routine::Jumping,
        action@ == "shifting"@ ==> routine_spec(ModuleCommand::Action { action, state }) == Routine::Shifting,
        action@ == "waving"@ ==> routine_spec(ModuleCommand::Action { action, state }) == Routine::Waving,
        action@ != "jumping"@ && action@ != "shifting"@ && action@ != "waving"@ ==> routine_spec(
            ModuleCommand::Action { action, state },
        ) == Routine::Idle,
        routine_spec(ModuleCommand::Action { action, state }) != Routine::Idle && routine_spec(
            ModuleCommand::Action { action, state },
        ) == routine_spec(ModuleCommand::Action { action: other, state: other_state }) ==> action@
            == other@,
{
    reveal_strlit("jumping");
    reveal_strlit("shifting");
    reveal_strlit("waving");
    assert("jumping"@[0] != "shifting"@[0]);
    assert("jumping"@[0] != "waving"@[0]);
    assert("shifting"@[0] != "waving"@[0]);
}

/// Each command name addresses its own module, and a switched module's task
/// key is the very name that addresses it.
pub proof fn lemma_module_names(m: SwitchModule)
    ensures
        module_kind_spec("chat"@) == Some(ModuleKind::Chat),
        module_kind_spec("action"@) == Some(ModuleKind::Action),
        module_kind_spec("inventory"@) == Some(ModuleKind::Inventory),
        module_kind_spec("movement"@) == Some(ModuleKind::Movement),
        module_kind_spec("anti-afk"@) == Some(ModuleKind::AntiAfk),
        module_kind_spec("flight"@) == Some(ModuleKind::Flight),
        module_kind_spec("killaura"@) == Some(ModuleKind::Killaura),
        module_kind_spec("scaffold"@) == Some(ModuleKind::Scaffold),
        module_kind_spec("anti-fall"@) == Some(ModuleKind::AntiFall),
        module_kind_spec("bow-aim"@) == Some(ModuleKind::BowAim),
        module_kind_spec("stealer"@) == Some(ModuleKind::Stealer),
        module_kind_spec("miner"@) == Some(ModuleKind::Miner),
        module_kind_spec("farmer"@) == Some(ModuleKind::Farmer),
        module_kind_spec(switch_name(m)) == Some(
            command_kind(ModuleCommand::Switch { module: m, state: true }),
        ),
{
    reveal_strlit("chat");
    reveal_strlit("action");
    reveal_strlit("inventory");
    reveal_strlit("movement");
    reveal_strlit("anti-afk");
    reveal_strlit("flight");
    reveal_strlit("killaura");
    reveal_strlit("scaffold");
    reveal_strlit("anti-fall");
    reveal_strlit("bow-aim");
    reveal_strlit("stealer");
    reveal_strlit("miner");
    reveal_strlit("farmer");
    assert("action"@[0] != "chat"@[0]);
    assert("inventory"@[0] != "chat"@[0]);
    assert("inventory"@[0] != "action"@[0]);
    assert("movement"@[0] != "chat"@[0]);
    assert("movement"@[0] != "action"@[0]);
    assert("movement"@[0] != "inventory"@[0]);
    assert("anti-afk"@[0] != "chat"@[0]);
    assert("anti-afk"@[1] != "action"@[1]);
    assert("anti-afk"@[0] != "inventory"@[0]);
    assert("anti-afk"@[0] != "movement"@[0]);
    assert("flight"@[0] != "chat"@[0]);
    assert("flight"@[0] != "action"@[0]);
    assert("flight"@[0] != "inventory"@[0]);
    assert("flight"@[0] != "movement"@[0]);
    assert("flight"@[0] != "anti-afk"@[0]);
    assert("killaura"@[0] != "chat"@[0]);
    assert("killaura"@[0] != "action"@[0]);
    assert("killaura"@[0] != "inventory"@[0]);
    assert("killaura"@[0] != "movement"@[0]);
    assert("killaura"@[0] != "anti-afk"@[0]);
    assert("killaura"@[0] != "flight"@[0]);
    assert("scaffold"@[0] != "chat"@[0]);
    assert("scaffold"@[0] != "action"@[0]);
    assert("scaffold"@[0] != "inventory"@[0]);
    assert("scaffold"@[0] != "movement"@[0]);
    assert("scaffold"@[0] != "anti-afk"@[0]);
    assert("scaffold"@[0] != "flight"@[0]);
    assert("scaffold"@[0] != "killaura"@[0]);
    assert("anti-fall"@[0] != "chat"@[0]);
    assert("anti-fall"@[1] != "action"@[1]);
    assert("anti-fall"@[0] != "inventory"@[0]);
    assert("anti-fall"@[0] != "movement"@[0]);
    assert("anti-fall"@[5] != "anti-afk"@[5]);
    assert("anti-fall"@[0] != "flight"@[0]);
    assert("anti-fall"@[0] != "killaura"@[0]);
    assert("anti-fall"@[0] != "scaffold"@[0]);
    assert("bow-aim"@[0] != "chat"@[0]);
    assert("bow-aim"@[0] != "action"@[0]);
    assert("bow-aim"@[0] != "inventory"@[0]);
    assert("bow-aim"@[0] != "movement"@[0]);
    assert("bow-aim"@[0] != "anti-afk"@[0]);
    assert("bow-aim"@[0] != "flight"@[0]);
    assert("bow-aim"@[0] != "killaura"@[0]);
    assert("bow-aim"@[0] != "scaffold"@[0]);
    assert("bow-aim"@[0] != "anti-fall"@[0]);
    assert("stealer"@[0] != "chat"@[0]);
    assert("stealer"@[0] != "action"@[0]);
    assert("stealer"@[0] != "inventory"@[0]);
    assert("stealer"@[0] != "movement"@[0]);
    assert("stealer"@[0] != "anti-afk"@[0]);
    assert("stealer"@[0] != "flight"@[0]);
    assert("stealer"@[0] != "killaura"@[0]);
    assert("stealer"@[1] != "scaffold"@[1]);
    assert("stealer"@[0] != "anti-fall"@[0]);
    assert("stealer"@[0] != "bow-aim"@[0]);
    assert("miner"@[0] != "chat"@[0]);
    assert("miner"@[0] != "action"@[0]);
    assert("miner"@[0] != "inventory"@[0]);
    assert("miner"@[1] != "movement"@[1]);
    assert("miner"@[0] != "anti-afk"@[0]);
    assert("miner"@[0] != "flight"@[0]);
    assert("miner"@[0] != "killaura"@[0]);
    assert("miner"@[0] != "scaffold"@[0]);
    assert("miner"@[0] != "anti-fall"@[0]);
    assert("miner"@[0] != "bow-aim"@[0]);
    assert("miner"@[0] != "stealer"@[0]);
    assert("farmer"@[0] != "chat"@[0]);
    assert("farmer"@[0] != "action"@[0]);
    assert("farmer"@[0] != "inventory"@[0]);
    assert("farmer"@[0] != "movement"@[0]);
    assert("farmer"@[0] != "anti-afk"@[0]);
    assert("farmer"@[1] != "flight"@[1]);
    assert("farmer"@[0] != "killaura"@[0]);
    assert("farmer"@[0] != "scaffold"@[0]);
    assert("farmer"@[0] != "anti-fall"@[0]);
    assert("farmer"@[0] != "bow-aim"@[0]);
    assert("farmer"@[0] != "stealer"@[0]);
    assert("farmer"@[0] != "miner"@[0]);
}

/// A chat command starts the routine its mode names: "message" sends the
/// message, "spamming" spams, any other mode starts a task that does nothing.
pub proof fn lemma_chat_routine(mode: String, state: bool)
    ensures
        mode@ == "message"@ ==> routine_spec(ModuleCommand::Chat { mode, state }) == Routine::ChatMessage,
        mode@ == "spamming"@ ==> routine_spec(ModuleCommand::Chat { mode, state }) == Routine::ChatSpamming,
        mode@ != "message"@ && mode@ != "spamming"@ ==> routine_spec(ModuleCommand::Chat { mode, state })
            == Routine::Idle,
{
    reveal_strlit("message");
    reveal_strlit("spamming");
    assert("message"@[0] != "spamming"@[0]);
}

/// Switching a module off never starts a task.
pub proof fn lemma_off_starts_nothing(cmd: ModuleCommand)
    requires
        command_state(cmd) == Some(false),
    ensures
        forall|i: int|
            0 <= i < control_steps_spec(cmd).len() ==> control_steps_spec(cmd)[i]
                == ControlStep::Stop,
{
    let steps = control_steps_spec(cmd);
    assert forall|i: int| 0 <= i < steps.len() implies steps[i] == ControlStep::Stop by {
        match cmd {
            ModuleCommand::Chat { mode, state } => {
                if mode@ == "spamming"@ {
                    assert(steps =~= seq![ControlStep::Stop, ControlStep::Stop]);
                } else {
                    assert(steps =~= Seq::<ControlStep>::empty());
                }
            },
            _ => {
                assert(steps =~= seq![ControlStep::Stop, ControlStep::Stop]);
            },
        }
    }
}

/// Switching a module on starts exactly one task, as the last step; an
/// action or a switched module is stopped first, so that it never runs
/// twice on one bot.
pub proof fn lemma_on_restarts(cmd: ModuleCommand)
    requires
        command_state(cmd) == Some(true),
    ensures
        control_steps_spec(cmd).len() >= 1,
        control_steps_spec(cmd).last() is Start,
        forall|i: int|
            0 <= i < control_steps_spec(cmd).len() - 1 ==> control_steps_spec(cmd)[i]
                == ControlStep::Stop,
        (cmd is Action || cmd is Switch) ==> control_steps_spec(cmd)[0] == ControlStep::Stop,
{
    let steps = control_steps_spec(cmd);
    match cmd {
        ModuleCommand::Chat { mode, state } => {
            if mode@ == "spamming"@ {
                assert(steps =~= seq![ControlStep::Stop, ControlStep::Start { routine: routine_spec(cmd), register: true }]);
            } else {
                assert(steps =~= seq![ControlStep::Start { routine: routine_spec(cmd), register: false }]);
            }
        },
        _ => {
            assert(steps =~= seq![ControlStep::Stop, ControlStep::Start { routine: routine_spec(cmd), register: true }]);
        },
    }
}

/// The module manager: dispatches group commands to the bots of the swarm.
pub struct ModuleManager;

impl ModuleKind {
    /// The module a command name addresses; unknown names address none.
    pub fn from_name(name: &str) -> (res: Option<ModuleKind>)
        ensures
            res == module_kind_spec(name@),
    {
        if text_eq(name, "chat") {
            Some(ModuleKind::Chat)
        } else if text_eq(name, "action") {
            Some(ModuleKind::Action)
        } else if text_eq(name, "inventory") {
            Some(ModuleKind::Inventory)
        } else if text_eq(name, "movement") {
            Some(ModuleKind::Movement)
        } else if text_eq(name, "anti-afk") {
            Some(ModuleKind::AntiAfk)
        } else if text_eq(name, "flight") {
            Some(ModuleKind::Flight)
        } else if text_eq(name, "killaura") {
            Some(ModuleKind::Killaura)
        } else if text_eq(name, "scaffold") {
            Some(ModuleKind::Scaffold)
        } else if text_eq(name, "anti-fall") {
            Some(ModuleKind::AntiFall)
        } else if text_eq(name, "bow-aim") {
            Some(ModuleKind::BowAim)
        } else if text_eq(name, "stealer") {
            Some(ModuleKind::Stealer)
        } else if text_eq(name, "miner") {
            Some(ModuleKind::Miner)
        } else if text_eq(name, "farmer") {
            Some(ModuleKind::Farmer)
        } else {
            None
        }
    }
}

impl ModuleManager {
    /// What the task started by `cmd` runs.
    pub fn routine(cmd: &ModuleCommand) -> (res: Routine)
        ensures
            res == routine_spec(*cmd),
    {
        match cmd {
            ModuleCommand::Chat { mode, .. } => if text_eq(mode.as_str(), "message") {
                Routine::ChatMessage
            } else if text_eq(mode.as_str(), "spamming") {
                Routine::ChatSpamming
            } else {
                Routine::Idle
            },
            ModuleCommand::Action { action, .. } => if text_eq(action.as_str(), "jumping") {
                Routine::Jumping
            } else if text_eq(action.as_str(), "shifting") {
                Routine::Shifting
            } else if text_eq(action.as_str(), "waving") {
                Routine::Waving
            } else {
                Routine::Idle
            },
            ModuleCommand::Inventory => Routine::InventoryAction,
            ModuleCommand::Switch { module, .. } => Routine::Module(*module),
        }
    }

    /// The steps `cmd` takes on each bot it reaches.
    pub fn steps(cmd: &ModuleCommand) -> (res: Vec<ControlStep>)
        ensures
            res@ == control_steps_spec(*cmd),
    {
        let routine = Self::routine(cmd);
        let mut steps: Vec<ControlStep> = Vec::new();
        match cmd {
            ModuleCommand::Chat { mode, state } => {
                let spamming = text_eq(mode.as_str(), "spamming");
                if spamming {
                    steps.push(ControlStep::Stop);
                }
                if *state {
                    steps.push(ControlStep::Start { routine, register: spamming });
                } else if spamming {
                    steps.push(ControlStep::Stop);
                }
            },
            ModuleCommand::Action { state, .. } | ModuleCommand::Switch { state, .. } => {
                steps.push(ControlStep::Stop);
                if *state {
                    steps.push(ControlStep::Start { routine, register: true });
                } else {
                    steps.push(ControlStep::Stop);
                }
            },
            ModuleCommand::Inventory => {
                steps.push(ControlStep::Start { routine, register: false });
            },
        }
        assert(steps@ =~= control_steps_spec(*cmd));
        steps
    }

    /// Whether a bot with recorded group `bot_group` takes part in a command
    /// for `group`.
    pub fn in_group(bot_group: &Option<String>, group: &str) -> (res: bool)
        ensures
            res == in_group(*bot_group, group@),
    {
        match bot_group {
            Some(g) => text_eq(g.as_str(), group),
            None => true,
        }
    }

    /// The key of a command's task.
    pub fn task_key(cmd: &ModuleCommand) -> (res: String)
        ensures
            res@ == task_key_spec(*cmd),
    {
        match cmd {
            ModuleCommand::Chat { .. } => String::from_str("spamming"),
            ModuleCommand::Action { action, .. } => action.clone(),
            ModuleCommand::Inventory => String::from_str("inventory"),
            ModuleCommand::Switch { module, .. } => match module {
                SwitchModule::Movement => String::from_str("movement"),
                SwitchModule::AntiAfk => String::from_str("anti-afk"),
                SwitchModule::Flight => String::from_str("flight"),
                SwitchModule::Killaura => String::from_str("killaura"),
                SwitchModule::Scaffold => String::from_str("scaffold"),
                SwitchModule::AntiFall => String::from_str("anti-fall"),
                SwitchModule::BowAim => String::from_str("bow-aim"),
                SwitchModule::Stealer => String::from_str("stealer"),
                SwitchModule::Miner => String::from_str("miner"),
                SwitchModule::Farmer => String::from_str("farmer"),
            },
        }
    }

    /// What the command named `name`, with options read into `cmd`, does
    /// for `group`: `bot_groups[i]` is the recorded group of the swarm's
    /// `i`-th bot (`None` when it has none). Nothing (`None`) with no bots or
    /// an unknown name; otherwise every bot in the group, in order, with the
    /// command's steps and task key.
    pub fn control(name: &str, cmd: &ModuleCommand, bot_groups: &Vec<Option<String>>, group: &str) -> (res: Option<ControlPlan>)
        requires
            module_kind_spec(name@) matches Some(k) ==> k == command_kind(*cmd),
        ensures
            res is None <==> (bot_groups@.len() == 0 || module_kind_spec(name@) is None),
            res matches Some(plan) ==> plan_ok(*cmd, bot_groups@, group@, plan),
    {
        if bot_groups.len() == 0 {
            return None;
        }
        match ModuleKind::from_name(name) {
            None => None,
            Some(_) => Some(Self::plan_for(cmd, bot_groups, group)),
        }
    }

    /// The plan of `cmd` for `group`.
    fn plan_for(cmd: &ModuleCommand, bot_groups: &Vec<Option<String>>, group: &str) -> (res: ControlPlan)
        ensures
            plan_ok(*cmd, bot_groups@, group@, res),
    {
        let n: usize = bot_groups.len();
        let mut bots: Vec<usize> = Vec::new();
        let mut i: usize = 0;
        while i < n
            invariant
                n == bot_groups@.len(),
                i <= n,
                forall|k: int|
                    0 <= k < bots@.len() ==> (#[trigger] bots@[k]) < i && in_group(
                        bot_groups@[bots@[k] as int],
                        group@,
                    ),
                forall|j: int|
                    0 <= j < i && in_group(bot_groups@[j], group@) ==> bots@.contains(j as usize),
                forall|a: int, b: int|
                    0 <= a < b < bots@.len() ==> #[trigger] bots@[a] < #[trigger] bots@[b],
            decreases n - i,
        {
            if Self::in_group(&bot_groups[i], group) {
                let ghost before = bots@;
                bots.push(i);
                proof {
                    assert forall|j: int|
                        0 <= j < i + 1 && in_group(bot_groups@[j], group@) implies bots@.contains(
                        j as usize,
                    ) by {
                        if j == i {
                            assert(bots@[bots@.len() - 1] == j);
                        } else {
                            let k: int = choose|k: int| 0 <= k < before.len() && before[k] == j as usize;
                            assert(bots@[k] == j as usize);
                        }
                    }
                }
            }
            i = i + 1;
        }
        ControlPlan { bots, steps: Self::steps(cmd), key: Self::task_key(cmd) }
    }
}

} // verus!
