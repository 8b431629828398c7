//! Detects the continuous-integration vendor that a process runs under and
//! exposes the build metadata that the vendor publishes in the environment.

pub mod appveyor;
pub mod ci;
pub mod circle;
pub mod codefresh;
pub mod codeship;
pub mod descriptor;
pub mod detect;
pub mod docker;
pub mod environment;
pub mod jenkins;
pub mod path;
pub mod record;
pub mod text;
pub mod travis;

pub use appveyor::Appveyor;
pub use ci::CI;
pub use circle::Circle;
pub use codefresh::Codefresh;
pub use codeship::Codeship;
pub use docker::Docker;
pub use environment::Environment;
pub use jenkins::Jenkins;
pub use travis::Travis;
