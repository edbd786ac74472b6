use vstd::prelude::*;

use crate::config::AppConfig;
use crate::store::UserStore;

verus! {

/// What every account operation works with: the user records and the
/// settings, whose secret key signs and checks session tokens.
pub struct AppState {
    pub db: UserStore,
    pub config: AppConfig,
}

impl AppState {
    pub fn new(db: UserStore, config: AppConfig) -> (r: AppState)
        ensures
            r.db == db,
            r.config == config,
    {
        AppState { db, config }
    }

    /// The secret key that signs session tokens.
    pub fn secret_key(&self) -> (r: &str)
        ensures
            r@ == self.config.secret_key@,
    {
        self.config.secret_key.as_str()
    }
}

} // verus!
