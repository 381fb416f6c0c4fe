pub mod client;
pub mod cmd;
pub mod config;
pub mod error;
pub mod labels;
pub mod numbers;
pub mod project;
pub mod resolver;
pub mod survey;
pub mod task;

pub use config::Config;
pub use error::ApiError;
pub use error::ProjectNotFound;
pub use error::RequestFailed;
pub use labels::Label;
pub use project::Project;
pub use survey::Question;
pub use task::Due;
pub use task::RefId;
pub use task::Task;
pub use task::TaskCreate;
pub use task::TaskFilter;
