pub mod cli;
pub mod dispatch;

pub use cli::Command;
pub use cli::CliArgs;
pub use cli::UsageError;
pub use cli::parse_args;
pub use dispatch::Call;
pub use dispatch::exit_code;
