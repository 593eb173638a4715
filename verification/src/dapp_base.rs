//! Base commands shared by the treasury modules: admin-gated configuration
//! of the treasury and trader addresses, an address book of named
//! collaborator contracts, and admin rotation.

use vstd::prelude::*;
use crate::admin::Admin;
use crate::effect::Effect;
use crate::error::{AdminError, BaseDAppError};

verus! {

/// Configuration of one treasury module.
pub struct BaseState {
    pub treasury_address: String,
    pub trader: String,
    pub memory_addr: String,
}

/// One named collaborator contract.
pub struct AddressBookEntry {
    pub name: String,
    pub address: String,
}

/// The common messages every treasury module handles.
pub enum BaseExecuteMsg {
    UpdateConfig { treasury_address: Option<String>, trader: Option<String> },
    SetAdmin { admin: String },
    UpdateAddressBook { to_add: Vec<(String, String)>, to_remove: Vec<String> },
}

/// The address stored under a name, if any.
pub open spec fn book_lookup(book: Seq<AddressBookEntry>, name: Seq<char>) -> Option<Seq<char>>
    decreases book.len(),
{
    if book.len() == 0 {
        None
    } else if book.last().name@ == name {
        Some(book.last().address@)
    } else {
        book_lookup(book.drop_last(), name)
    }
}

/// The last address a batch of additions assigns to a name, if any.
pub open spec fn last_added(to_add: Seq<(String, String)>, name: Seq<char>) -> Option<Seq<char>>
    decreases to_add.len(),
{
    if to_add.len() == 0 {
        None
    } else if to_add.last().0@ == name {
        Some(to_add.last().1@)
    } else {
        last_added(to_add.drop_last(), name)
    }
}

/// A name appears in a list of names.
pub open spec fn contains_name(names: Seq<String>, name: Seq<char>) -> bool {
    exists|i: int| 0 <= i < names.len() && names[i]@ == name
}

/// No name is stored twice.
pub open spec fn book_wf(book: Seq<AddressBookEntry>) -> bool {
    forall|i: int, j: int|
        0 <= i < j < book.len() ==> (#[trigger] book[i]).name@ != (#[trigger] book[j]).name@
}

/// With unique names, the lookup is decided by any matching index.
proof fn lemma_book_lookup_at(book: Seq<AddressBookEntry>, i: int)
    requires
        book_wf(book),
        0 <= i < book.len(),
    ensures
        book_lookup(book, book[i].name@) == Some(book[i].address@),
    decreases book.len(),
{
    if i < book.len() - 1 {
        assert(book.last().name@ != book[i].name@);
        assert(book.drop_last()[i] == book[i]);
        lemma_book_lookup_at(book.drop_last(), i);
    }
}

/// A name matching no entry looks up to nothing.
proof fn lemma_book_lookup_none(book: Seq<AddressBookEntry>, name: Seq<char>)
    requires
        forall|i: int| 0 <= i < book.len() ==> (#[trigger] book[i]).name@ != name,
    ensures
        book_lookup(book, name) == None::<Seq<char>>,
    decreases book.len(),
{
    if book.len() > 0 {
        lemma_book_lookup_none(book.drop_last(), name);
    }
}

/// Replacing the entry at a matching index rewrites that name's lookup and
/// nothing else.
proof fn lemma_book_lookup_update(book: Seq<AddressBookEntry>, i: int, e: AddressBookEntry, n: Seq<char>)
    requires
        0 <= i < book.len(),
        e.name@ == book[i].name@,
        book_wf(book),
    ensures
        book_lookup(book.update(i, e), n) == if n == e.name@ {
            Some(e.address@)
        } else {
            book_lookup(book, n)
        },
    decreases book.len(),
{
    let updated = book.update(i, e);
    assert forall|a: int, b: int| 0 <= a < b < updated.len() implies (#[trigger] updated[a]).name@
        != (#[trigger] updated[b]).name@ by {
        assert(book[a].name@ != book[b].name@);
    }
    if n == e.name@ {
        lemma_book_lookup_at(updated, i);
    } else {
        if i == book.len() - 1 {
            assert(updated.drop_last() =~= book.drop_last());
        } else {
            lemma_book_lookup_update(book.drop_last(), i, e, n);
            assert(updated.drop_last() =~= book.drop_last().update(i, e));
        }
    }
}

/// Appending a fresh entry adds that name's lookup and nothing else.
proof fn lemma_book_lookup_push(book: Seq<AddressBookEntry>, e: AddressBookEntry, n: Seq<char>)
    ensures
        book_lookup(book.push(e), n) == if n == e.name@ {
            Some(e.address@)
        } else {
            book_lookup(book, n)
        },
{
    assert(book.push(e).drop_last() =~= book);
}

/// Stores an address under a name, replacing any previous one.
#[verifier::loop_isolation(false)]
fn book_upsert(book: &mut Vec<AddressBookEntry>, name: &String, address: &String)
    requires
        book_wf(old(book)@),
    ensures
        book_wf(final(book)@),
        forall|n: Seq<char>|
            #[trigger] book_lookup(final(book)@, n) == if n =~= name@ {
                Some(address@)
            } else {
                book_lookup(old(book)@, n)
            },
{
    let n_entries: usize = book.len();
    let mut i: usize = 0;
    while i < n_entries
        invariant
            i <= n_entries,
            n_entries == book@.len(),
            *book == *old(book),
            forall|j: int| 0 <= j < i ==> (#[trigger] book@[j]).name@ != name@,
        decreases n_entries - i,
    {
        if book[i].name == *name {
            let ghost prev = book@;
            book.set(
                i,
                AddressBookEntry { name: name.clone(), address: address.clone() },
            );
            proof {
                assert forall|n: Seq<char>| true implies #[trigger] book_lookup(book@, n) == (
                if n =~= name@ {
                    Some(address@)
                } else {
                    book_lookup(prev, n)
                }) by {
                    lemma_book_lookup_update(
                        prev,
                        i as int,
                        AddressBookEntry { name: book@[i as int].name, address: book@[i as int].address },
                        n,
                    );
                    assert(book@ =~= prev.update(
                        i as int,
                        AddressBookEntry { name: book@[i as int].name, address: book@[i as int].address },
                    ));
                }
                assert forall|a: int, b: int| 0 <= a < b < book@.len() implies (
                #[trigger] book@[a]).name@ != (#[trigger] book@[b]).name@ by {
                    assert(prev[a].name@ != prev[b].name@);
                }
            }
            return ;
        }
        i = i + 1;
    }
    let ghost prev = book@;
    book.push(AddressBookEntry { name: name.clone(), address: address.clone() });
    proof {
        assert forall|n: Seq<char>| true implies #[trigger] book_lookup(book@, n) == (if n
            =~= name@ {
            Some(address@)
        } else {
            book_lookup(prev, n)
        }) by {
            lemma_book_lookup_push(prev, book@.last(), n);
            assert(book@ =~= prev.push(book@.last()));
        }
        assert forall|a: int, b: int| 0 <= a < b < book@.len() implies (#[trigger] book@[a]).name@
            != (#[trigger] book@[b]).name@ by {
            if b < book@.len() - 1 {
                assert(prev[a].name@ != prev[b].name@);
            } else {
                assert(prev[a].name@ != name@);
            }
        }
    }
}

/// Deletes a name and its address; a missing name is not an error.
#[verifier::loop_isolation(false)]
fn book_remove(book: &mut Vec<AddressBookEntry>, name: &String)
    requires
        book_wf(old(book)@),
    ensures
        book_wf(final(book)@),
        forall|n: Seq<char>|
            #[trigger] book_lookup(final(book)@, n) == if n =~= name@ {
                None::<Seq<char>>
            } else {
                book_lookup(old(book)@, n)
            },
{
    let n_entries: usize = book.len();
    let mut kept: Vec<AddressBookEntry> = Vec::new();
    let mut i: usize = 0;
    while i < n_entries
        invariant
            i <= n_entries,
            n_entries == book@.len(),
            *book == *old(book),
            book_wf(kept@),
            forall|n: Seq<char>|
                #[trigger] book_lookup(kept@, n) == if n =~= name@ {
                    None::<Seq<char>>
                } else {
                    book_lookup(book@.take(i as int), n)
                },
            forall|j: int|
                0 <= j < kept@.len() ==> (#[trigger] kept@[j]).name@ != name@,
            forall|a: int|
                0 <= a < kept@.len() ==> exists|j2: int|
                    0 <= j2 < i && (#[trigger] kept@[a]).name@ == book@[j2].name@,
        decreases n_entries - i,
    {
        proof {
            assert(book@.take(i as int + 1).drop_last() =~= book@.take(i as int));
        }
        let ghost prev_kept = kept@;
        if !(book[i].name == *name) {
            kept.push(
                AddressBookEntry {
                    name: book[i].name.clone(),
                    address: book[i].address.clone(),
                },
            );
            proof {
                assert forall|n: Seq<char>| true implies #[trigger] book_lookup(kept@, n) == (
                if n == book@[i as int].name@ {
                    Some(book@[i as int].address@)
                } else {
                    book_lookup(prev_kept, n)
                }) by {
                    lemma_book_lookup_push(prev_kept, kept@.last(), n);
                    assert(kept@ =~= prev_kept.push(kept@.last()));
                }
                assert forall|a: int, b: int| 0 <= a < b < kept@.len() implies (
                #[trigger] kept@[a]).name@ != (#[trigger] kept@[b]).name@ by {
                    if b == kept@.len() - 1 {
                        assert(kept@[a] == prev_kept[a]);
                        let orig = choose|j2: int|
                            0 <= j2 < i && (#[trigger] prev_kept[a]).name@ == book@[j2].name@;
                        assert(book@[orig].name@ != book@[i as int].name@);
                    } else {
                        assert(prev_kept[a].name@ != prev_kept[b].name@);
                    }
                }
            }
        }
        i = i + 1;
    }
    proof {
        assert(book@.take(n_entries as int) =~= book@);
    }
    *book = kept;
}

/// Looks a collaborator contract up by name.
#[verifier::loop_isolation(false)]
pub fn load_contract_addr(book: &Vec<AddressBookEntry>, name: &String) -> (r: Result<
    String,
    BaseDAppError,
>)
    requires
        book_wf(book@),
    ensures
        match r {
            Ok(a) => book_lookup(book@, name@) matches Some(stored) && stored == a@,
            Err(BaseDAppError::NotFound) => book_lookup(book@, name@) is None,
            Err(_) => false,
        },
{
    let n_entries: usize = book.len();
    let mut i: usize = 0;
    while i < n_entries
        invariant
            i <= n_entries,
            n_entries == book@.len(),
            forall|j: int| 0 <= j < i ==> (#[trigger] book@[j]).name@ != name@,
        decreases n_entries - i,
    {
        if book[i].name == *name {
            proof {
                lemma_book_lookup_at(book@, i as int);
            }
            return Ok(book[i].address.clone());
        }
        i = i + 1;
    }
    proof {
        lemma_book_lookup_none(book@, name@);
    }
    Err(BaseDAppError::NotFound)
}

/// Adds, updates or removes the provided named addresses; removals win over
/// additions within one message. Only the admin may call this.
#[verifier::loop_isolation(false)]
pub fn update_address_book(
    book: &mut Vec<AddressBookEntry>,
    admin: &Admin,
    sender: &String,
    to_add: &Vec<(String, String)>,
    to_remove: &Vec<String>,
) -> (r: Result<Vec<Effect>, BaseDAppError>)
    requires
        book_wf(old(book)@),
    ensures
        book_wf(final(book)@),
        match r {
            Ok(effects) => {
                &&& admin.is_admin_spec(sender@)
                &&& effects@.len() == 0
                &&& forall|n: Seq<char>|
                    #[trigger] book_lookup(final(book)@, n) == if contains_name(to_remove@, n) {
                        None::<Seq<char>>
                    } else {
                        match last_added(to_add@, n) {
                            Some(a) => Some(a),
                            None => book_lookup(old(book)@, n),
                        }
                    }
            },
            Err(BaseDAppError::Admin(AdminError::NotAdmin)) => !admin.is_admin_spec(sender@)
                && final(book)@ == old(book)@,
            Err(_) => false,
        },
{
    match admin.assert_admin(sender) {
        Ok(()) => (),
        Err(_) => {
            return Err(BaseDAppError::Admin(AdminError::NotAdmin));
        },
    }
    let n_add: usize = to_add.len();
    let mut i: usize = 0;
    while i < n_add
        invariant
            i <= n_add,
            n_add == to_add@.len(),
            book_wf(book@),
            forall|n: Seq<char>|
                #[trigger] book_lookup(book@, n) == match last_added(to_add@.take(i as int), n) {
                    Some(a) => Some(a),
                    None => book_lookup(old(book)@, n),
                },
        decreases n_add - i,
    {
        proof {
            assert(to_add@.take(i as int + 1).drop_last() =~= to_add@.take(i as int));
        }
        book_upsert(book, &to_add[i].0, &to_add[i].1);
        i = i + 1;
    }
    proof {
        assert(to_add@.take(n_add as int) =~= to_add@);
    }
    let ghost mid = book@;
    let n_rem: usize = to_remove.len();
    let mut k: usize = 0;
    while k < n_rem
        invariant
            k <= n_rem,
            n_rem == to_remove@.len(),
            book_wf(book@),
            forall|n: Seq<char>|
                #[trigger] book_lookup(book@, n) == if contains_name(to_remove@.take(k as int), n) {
                    None::<Seq<char>>
                } else {
                    book_lookup(mid, n)
                },
        decreases n_rem - k,
    {
        let ghost before = book@;
        book_remove(book, &to_remove[k]);
        proof {
            assert forall|n: Seq<char>| true implies #[trigger] book_lookup(book@, n) == (
            if contains_name(to_remove@.take(k as int + 1), n) {
                None::<Seq<char>>
            } else {
                book_lookup(mid, n)
            }) by {
                let nm = to_remove@[k as int]@;
                if n =~= nm {
                    assert(to_remove@.take(k as int + 1)[k as int]@ == n);
                    assert(contains_name(to_remove@.take(k as int + 1), n));
                } else {
                    assert(book_lookup(book@, n) == book_lookup(before, n));
                    if contains_name(to_remove@.take(k as int + 1), n) {
                        let w = choose|w: int|
                            0 <= w < k + 1 && (#[trigger] to_remove@.take(k as int + 1)[w])@
                                == n;
                        assert(w != k);
                        assert(to_remove@.take(k as int)[w]@ == n);
                        assert(contains_name(to_remove@.take(k as int), n));
                    } else {
                        assert(!contains_name(to_remove@.take(k as int), n)) by {
                            if contains_name(to_remove@.take(k as int), n) {
                                let w = choose|w: int|
                                    0 <= w < k && (#[trigger] to_remove@.take(k as int)[w])@
                                        == n;
                                assert(to_remove@.take(k as int + 1)[w]@ == n);
                                assert(contains_name(to_remove@.take(k as int + 1), n));
                            }
                        }
                    }
                }
            }
        }
        k = k + 1;
    }
    proof {
        assert(to_remove@.take(n_rem as int) =~= to_remove@);
    }
    Ok(Vec::new())
}

/// Updates the treasury or trader address. Only the admin may call this.
pub fn update_config(
    state: &mut BaseState,
    admin: &Admin,
    sender: &String,
    treasury_address: Option<String>,
    trader: Option<String>,
) -> (r: Result<Vec<Effect>, BaseDAppError>)
    ensures
        match r {
            Ok(effects) => {
                &&& admin.is_admin_spec(sender@)
                &&& effects@.len() == 0
                &&& final(state).treasury_address == (match treasury_address {
                    Some(a) => a,
                    None => old(state).treasury_address,
                })
                &&& final(state).trader == (match trader {
                    Some(a) => a,
                    None => old(state).trader,
                })
                &&& final(state).memory_addr == old(state).memory_addr
            },
            Err(BaseDAppError::Admin(AdminError::NotAdmin)) => !admin.is_admin_spec(sender@)
                && *final(state) == *old(state),
            Err(_) => false,
        },
{
    match admin.assert_admin(sender) {
        Ok(()) => (),
        Err(_) => {
            return Err(BaseDAppError::Admin(AdminError::NotAdmin));
        },
    }
    if let Some(a) = treasury_address {
        state.treasury_address = a;
    }
    if let Some(a) = trader {
        state.trader = a;
    }
    Ok(Vec::new())
}

/// Hands the module to a new admin. Only the current admin may call this.
pub fn set_admin(admin: &mut Admin, sender: &String, new_admin: String) -> (r: Result<
    Vec<Effect>,
    BaseDAppError,
>)
    ensures
        match r {
            Ok(effects) => old(admin).is_admin_spec(sender@) && effects@.len() == 0 && (final(admin).admin matches Some(a) && a@ == new_admin@),
            Err(BaseDAppError::Admin(AdminError::NotAdmin)) => !old(admin).is_admin_spec(sender@)
                && *final(admin) == *old(admin),
            Err(_) => false,
        },
{
    match admin.execute_update_admin(sender, Some(new_admin)) {
        Ok(()) => Ok(Vec::new()),
        Err(_) => Err(BaseDAppError::Admin(AdminError::NotAdmin)),
    }
}

/// Routes one of the common messages to its command.
pub fn handle_base_message(
    state: &mut BaseState,
    book: &mut Vec<AddressBookEntry>,
    admin: &mut Admin,
    sender: &String,
    message: BaseExecuteMsg,
) -> (r: Result<Vec<Effect>, BaseDAppError>)
    requires
        book_wf(old(book)@),
    ensures
        book_wf(final(book)@),
        match message {
            BaseExecuteMsg::UpdateConfig { treasury_address, trader } => {
                &&& final(book)@ == old(book)@
                &&& *final(admin) == *old(admin)
                &&& match r {
                    Ok(effects) => {
                        &&& old(admin).is_admin_spec(sender@)
                        &&& effects@.len() == 0
                        &&& final(state).treasury_address == (match treasury_address {
                            Some(a) => a,
                            None => old(state).treasury_address,
                        })
                        &&& final(state).trader == (match trader {
                            Some(a) => a,
                            None => old(state).trader,
                        })
                        &&& final(state).memory_addr == old(state).memory_addr
                    },
                    Err(BaseDAppError::Admin(AdminError::NotAdmin)) => !old(admin).is_admin_spec(
                        sender@,
                    ) && *final(state) == *old(state),
                    Err(_) => false,
                }
            },
            BaseExecuteMsg::SetAdmin { admin: new_admin } => {
                &&& final(book)@ == old(book)@
                &&& *final(state) == *old(state)
                &&& match r {
                    Ok(effects) => old(admin).is_admin_spec(sender@) && effects@.len() == 0 && (
                    final(admin).admin matches Some(a) && a@ == new_admin@),
                    Err(BaseDAppError::Admin(AdminError::NotAdmin)) => !old(admin).is_admin_spec(
                        sender@,
                    ) && *final(admin) == *old(admin),
                    Err(_) => false,
                }
            },
            BaseExecuteMsg::UpdateAddressBook { to_add, to_remove } => {
                &&& *final(state) == *old(state)
                &&& *final(admin) == *old(admin)
                &&& match r {
                    Ok(effects) => {
                        &&& old(admin).is_admin_spec(sender@)
                        &&& effects@.len() == 0
                        &&& forall|n: Seq<char>|
                            #[trigger] book_lookup(final(book)@, n) == if contains_name(
                                to_remove@,
                                n,
                            ) {
                                None::<Seq<char>>
                            } else {
                                match last_added(to_add@, n) {
                                    Some(a) => Some(a),
                                    None => book_lookup(old(book)@, n),
                                }
                            }
                    },
                    Err(BaseDAppError::Admin(AdminError::NotAdmin)) => !old(admin).is_admin_spec(
                        sender@,
                    ) && final(book)@ == old(book)@,
                    Err(_) => false,
                }
            },
        },
{
    match message {
        BaseExecuteMsg::UpdateConfig { treasury_address, trader } => update_config(
            state,
            admin,
            sender,
            treasury_address,
            trader,
        ),
        BaseExecuteMsg::SetAdmin { admin: new_admin } => set_admin(admin, sender, new_admin),
        BaseExecuteMsg::UpdateAddressBook { to_add, to_remove } => update_address_book(
            book,
            admin,
            sender,
            &to_add,
            &to_remove,
        ),
    }
}

} // verus!
