//! A thin key-value client that works straight off a request's parameter
//! list: the dispatcher's checked parameters are handed over as they came,
//! and the key stands first, the value (for `set`) second.  Unlike the
//! storage actor it carries no command protocol; callers reach the backend
//! through it directly.

use vstd::prelude::*;
use vstd::string::StringExecFns;
use crate::backend::Backend;

verus! {

/// A key-value client over one backend connection.
pub struct KVService {
    pub db: Backend,
}

impl KVService {
    /// A client over the given backend connection.
    pub fn new(db: Backend) -> (r: KVService)
        ensures
            r.db.entries() == db.entries(),
            r.db.windows() == db.windows(),
    {
        KVService { db }
    }

    /// Look up the key in the first parameter: the stored value, or the
    /// failure's description when the key is absent.
    pub fn get(&mut self, params: &Vec<String>) -> (r: Result<String, String>)
        requires
            params@.len() >= 1,
        ensures
            old(self).db.entries().contains_key(params@[0]@) ==> (r matches Ok(v) && v@ == old(
                self,
            ).db.entries()[params@[0]@]),
            !old(self).db.entries().contains_key(params@[0]@) ==> r is Err,
            final(self).db.entries() == old(self).db.entries(),
            final(self).db.windows() == old(self).db.windows(),
    {
        match self.db.get(params[0].as_str()) {
            Ok(v) => Ok(v),
            Err(e) => Err(e.message().to_owned()),
        }
    }

    /// Store the second parameter's value under the first parameter's key,
    /// answering the acknowledgement "ok".
    pub fn set(&mut self, params: &Vec<String>) -> (r: Result<String, String>)
        requires
            params@.len() >= 2,
        ensures
            r matches Ok(v) && v@ == "ok"@,
            final(self).db.entries() == old(self).db.entries().insert(
                params@[0]@,
                params@[1]@,
            ),
            final(self).db.windows() == old(self).db.windows(),
    {
        self.db.set(params[0].clone(), params[1].clone());
        Ok(String::from_str("ok"))
    }
}

} // verus!
