//! An incremental space-station simulation: a resource ledger, cost curves,
//! upgrades, stations with their drone task automata, the player's prestige loop,
//! and a scripted event and dialogue sequencer that gates progression.
//!
//! Everything here is plain data driven by plain inputs: the host supplies the tick
//! counter, random numbers and pointer predicates, and draws what it reads back.

pub mod resources;
pub mod cost;
pub mod upgrade;
pub mod catalog;
pub mod events;
pub mod player;
pub mod drone;
pub mod stations;
pub mod game;
pub mod ui;
pub mod text;
pub mod settings;

pub use catalog::Catalog;
pub use cost::CostFormula;
pub use drone::{Drone, DroneMode};
pub use events::{Dialogue, DialogueBox, Event, EventManager};
pub use game::{GameState, Outcome, TickInput};
pub use player::Player;
pub use resources::Resources;
pub use settings::Global;
pub use stations::{AsteroidMines, DroneDepot, Exoplanet, Jumpgate, PowerPlant, ResearchComplex, Station};
pub use text::{Numbers, WrapBox};
pub use ui::{Bounds, Btn, BtnState, PopUp};
pub use upgrade::{Effect, InsufficientResources, Upgrade};
