//! A minimal treasury module: it speaks only the shared base messages.

use vstd::prelude::*;
use crate::admin::Admin;
use crate::dapp_base::{handle_base_message, AddressBookEntry, BaseExecuteMsg, BaseState, book_wf};
use crate::effect::Effect;
use crate::error::BaseDAppError;

verus! {

pub struct BaseInstantiateMsg {
    pub treasury_address: String,
    pub trader: String,
    pub memory_addr: String,
}

/// The messages this module accepts: only the shared base set.
pub enum ExecuteMsg {
    Base(BaseExecuteMsg),
}

/// Sets up the module's configuration; the instantiating sender becomes the
/// admin.
pub fn instantiate(sender: &String, msg: BaseInstantiateMsg) -> (r: (BaseState, Admin))
    ensures
        r.0.treasury_address == msg.treasury_address,
        r.0.trader == msg.trader,
        r.0.memory_addr == msg.memory_addr,
        r.1.admin matches Some(a) && a@ == sender@,
{
    (
        BaseState {
            treasury_address: msg.treasury_address,
            trader: msg.trader,
            memory_addr: msg.memory_addr,
        },
        Admin::new(Some(sender.clone())),
    )
}

/// Routes a message: everything this module handles is a base message.
pub fn execute(
    state: &mut BaseState,
    book: &mut Vec<AddressBookEntry>,
    admin: &mut Admin,
    sender: &String,
    msg: ExecuteMsg,
) -> (r: Result<Vec<Effect>, BaseDAppError>)
    requires
        book_wf(old(book)@),
    ensures
        book_wf(final(book)@),
        match msg {
            ExecuteMsg::Base(message) => {
                &&& r is Ok ==> old(admin).is_admin_spec(sender@)
                &&& r matches Ok(effects) ==> effects@.len() == 0
                &&& r is Err ==> (r matches Err(e) && e matches BaseDAppError::Admin(_)) && !old(admin).is_admin_spec(sender@) && *final(state) == *old(state) && final(book)@ == old(book)@ && *final(admin) == *old(admin)
                &&& match message {
                    BaseExecuteMsg::UpdateConfig { treasury_address, trader } => r is Ok ==> {
                        &&& final(state).treasury_address == (match treasury_address {
                            Some(a) => a,
                            None => old(state).treasury_address,
                        })
                        &&& final(state).trader == (match trader {
                            Some(a) => a,
                            None => old(state).trader,
                        })
                        &&& final(state).memory_addr == old(state).memory_addr
                        &&& final(book)@ == old(book)@
                        &&& *final(admin) == *old(admin)
                    },
                    BaseExecuteMsg::SetAdmin { admin: new_admin } => r is Ok ==> (final(admin).admin matches Some(a) && a@ == new_admin@) && *final(state) == *old(state)
                        && final(book)@ == old(book)@,
                    BaseExecuteMsg::UpdateAddressBook { to_add, to_remove } => r is Ok ==> {
                        &&& *final(state) == *old(state)
                        &&& *final(admin) == *old(admin)
                        &&& forall|n: Seq<char>|
                            #[trigger] crate::dapp_base::book_lookup(final(book)@, n)
                                == if crate::dapp_base::contains_name(to_remove@, n) {
                                None::<Seq<char>>
                            } else {
                                match crate::dapp_base::last_added(to_add@, n) {
                                    Some(a) => Some(a),
                                    None => crate::dapp_base::book_lookup(old(book)@, n),
                                }
                            }
                    },
                }
            },
        },
{
    match msg {
        ExecuteMsg::Base(message) => handle_base_message(state, book, admin, sender, message),
    }
}

} // verus!
