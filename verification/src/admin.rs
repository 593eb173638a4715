//! Single-admin ownership with an explicit, admin-authorized transfer.

use vstd::prelude::*;
use crate::error::AdminError;

verus! {

/// The current admin, if one is set.
pub struct Admin {
    pub admin: Option<String>,
}

impl Admin {
    /// The given caller is the current admin.
    pub open spec fn is_admin_spec(self, caller: Seq<char>) -> bool {
        match self.admin {
            Some(a) => a@ == caller,
            None => false,
        }
    }

    pub fn new(admin: Option<String>) -> (r: Admin)
        ensures
            r.admin == admin,
    {
        Admin { admin }
    }

    /// The current admin, cloned.
    pub fn get(&self) -> (r: Option<String>)
        ensures
            match (r, self.admin) {
                (Some(a), Some(b)) => a@ == b@,
                (None, None) => true,
                _ => false,
            },
    {
        match &self.admin {
            Some(a) => Some(a.clone()),
            None => None,
        }
    }

    /// Fails unless the caller is the current admin.
    pub fn assert_admin(&self, caller: &String) -> (r: Result<(), AdminError>)
        ensures
            r is Ok <==> self.is_admin_spec(caller@),
    {
        match &self.admin {
            Some(a) => {
                if *a == *caller {
                    Ok(())
                } else {
                    Err(AdminError::NotAdmin)
                }
            },
            None => Err(AdminError::NotAdmin),
        }
    }

    /// Replaces the admin; only the current admin may do so.
    pub fn execute_update_admin(&mut self, caller: &String, new_admin: Option<String>) -> (r:
        Result<(), AdminError>)
        ensures
            r is Ok <==> old(self).is_admin_spec(caller@),
            r is Ok ==> final(self).admin == new_admin,
            r is Err ==> final(self).admin == old(self).admin,
    {
        match self.assert_admin(caller) {
            Ok(()) => {
                self.admin = new_admin;
                Ok(())
            },
            Err(e) => Err(e),
        }
    }
}

} // verus!
