//! Decision logic of a Minecraft bot swarm controller: inventory slot
//! bookkeeping, combat and building module plans, container stealing,
//! group command dispatch and quick tasks.

pub mod text;
pub mod search;
pub mod inventory;
pub mod killaura;
pub mod stealer;
pub mod control;
pub mod movement;
pub mod scaffold;
pub mod quick;
pub mod plugins;
pub mod captcha;
pub mod status;
pub mod tasks;
