use vstd::prelude::*;

pub mod auth;
pub mod client;
pub mod countries;
pub mod graph;
pub mod errors;
pub mod login;
pub mod region;
pub mod session;
pub mod text;
pub mod thresholds;
pub mod timestamp;
pub mod trend;

pub use client::LibreCgmData;
pub use countries::{CountryResponse, RegionalMap, AE};
pub use graph::{
    ActiveSensor, AlarmRules, Connection, Device, GlucoseItem, GraphData, Sensor, Ticket,
};
pub use login::{
    AuthTicket, Data as LoginData, LoginArgs, LoginOutcome, LoginRedirectResponse, LoginResponse,
    LoginResponseData, RawLoginPayload, StepData, User,
};
pub use region::Region;
pub use trend::TrendType;

verus! {

} // verus!
