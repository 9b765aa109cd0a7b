//! Decision engine of a process-priority scheduler driven by positional
//! astronomy: longitudes of seven tracked celestial bodies are banded into
//! zodiacal bands and elements, a task identifier is classified into a
//! category, and both signals are fused into a priority and slice-weight
//! decision with a time-bounded snapshot cache.

pub mod planets;
pub mod tasks;
pub mod scheduler;
pub mod text;

pub use planets::Planet;
pub use planets::ZodiacSign;
pub use planets::Element;
pub use planets::MoonPhase;
pub use planets::PlanetaryPosition;
pub use planets::BodyReading;
pub use planets::SolverReadings;
pub use planets::calculate_planetary_positions;
pub use planets::is_retrograde;
pub use tasks::TaskType;
pub use tasks::TaskClassifier;
pub use scheduler::AstrologicalScheduler;
pub use scheduler::SchedulingDecision;
pub use scheduler::CategoryStatus;
