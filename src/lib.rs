//! A runtime in which independent modules work, cycle after cycle, on a shared
//! pool of typed entities. The library holds the verified core: entity ids and
//! their issuing, the per-type stores, the run/exit state of the loop, and the
//! modules that come with it (maths, input, logging, key-value registries, a
//! clock).

use vstd::prelude::*;

pub mod entity_id;
pub mod store;
pub mod entities;
pub mod schedule;
pub mod log;
pub mod maths;
pub mod time;
pub mod transform;
pub mod two;
pub mod ui;
pub mod window;
pub mod kv;
pub mod persisted;
pub mod registry;

verus! {

} // verus!
