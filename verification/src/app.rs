//! What every request handler is given: the key material and the tables.

use vstd::prelude::*;
use crate::config::Config;
use crate::error::Error;
use crate::keys::Keys;
use crate::store::{DBView, DB};

verus! {

/// The hub's state.
pub struct HubState {
    pub keys: Keys,
    pub db: DB,
}

impl HubState {
    /// The state of a hub that starts: the key material that the settings
    /// ask for, and empty tables.
    pub fn new(config: &Config) -> (res: Result<Self, Error>)
        ensures
            res matches Ok(state) ==> state.keys@.wf() && state.db@.wf() && state.db@ == (DBView {
                users: Seq::empty(),
                web: Seq::empty(),
                game: Seq::empty(),
                mobile: Seq::empty(),
            }),
            res matches Err(e) ==> e is ConfigError,
            config.private_key matches Some(seed) ==> {
                &&& res is Ok <==> !crate::keys::all_zero(seed@)
                &&& res matches Ok(state) ==> state.keys@ == crate::keys::KeysView::of_seed(seed@)
            },
    {
        match config.keys() {
            Ok(keys) => Ok(Self { keys, db: DB::new() }),
            Err(e) => Err(e),
        }
    }
}

} // verus!
