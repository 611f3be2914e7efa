//! Command values, execution modes and the machinery that runs them.

pub mod cmd;
pub mod elevate;
pub mod execution;
pub mod gate;
pub mod grep;
pub mod laws;
pub mod probe;
pub mod prompt;
pub mod session;
pub mod tee;
pub mod text;
pub mod trace;
pub mod types;

pub use self::cmd::{Cmd, CmdView, SpawnSpec, SpawnSpecView};
pub use self::execution::{Banner, Execution, Launch, Next, Phase, Recipe, Step};
pub use self::gate::{Gate, Reply};
pub use self::grep::{grep, try_grep};
pub use self::probe::is_exe;
pub use self::session::{Action, Event, Session, Stage};
pub use self::tee::Tee;
pub use self::types::{ExecError, Mode, Output, OutputView, StatusCode};
