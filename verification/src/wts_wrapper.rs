//! The plain-value form of one raw session record, as the session enumerator
//! hands it to the library: the session id, its state code and the name of
//! the station it is bound to.

use vstd::prelude::*;

verus! {

/// One raw session record. The enumerator that produces these is an outside
/// collaborator; the library only ever reads these three plain fields.
#[derive(Debug)]
pub struct WtsSessionInfoW {
    pub session_id: u32,
    pub state: i32,
    pub win_station_name: String,
}

impl WtsSessionInfoW {
    /// An exact copy; unlike a derived `Clone`, its contract keeps the fields.
    pub fn duplicate(&self) -> (r: WtsSessionInfoW)
        ensures
            r == *self,
    {
        WtsSessionInfoW {
            session_id: self.session_id,
            state: self.state,
            win_station_name: self.win_station_name.clone(),
        }
    }
}

} // verus!
