//! The engine as a state machine over plain values: the store is a sequence
//! of account views, the activation an optional name. The executable engine
//! states its contracts over the functions of this module, and the lemmas
//! here say what those contracts add up to.

use vstd::prelude::*;
use crate::account::{
    has_name, is_first_match, names_distinct, names_nonempty, names_of, AccountView,
};
use crate::error::SelectorView;

verus! {

/// The first account of the store that carries `name`.
pub open spec fn first_named(store: Seq<AccountView>, name: Seq<char>) -> AccountView {
    store[choose|i: int| is_first_match(store, name, i)]
}

/// `name` is the active account.
pub open spec fn is_active(active: Option<Seq<char>>, name: Seq<char>) -> bool {
    active == Some(name)
}

/// The activation names no account that the store lacks.
pub open spec fn active_resolves(store: Seq<AccountView>, active: Option<Seq<char>>) -> bool {
    match active {
        Some(name) => has_name(store, name),
        None => true,
    }
}

/// `name` can be given to a new account: it is not empty and not taken.
pub open spec fn name_is_free(store: Seq<AccountView>, name: Seq<char>) -> bool {
    name.len() > 0 && !has_name(store, name)
}

/// The store after an attempt to add `account`: appended, unless its name
/// is empty or taken.
pub open spec fn store_after_add(store: Seq<AccountView>, account: AccountView) -> Seq<
    AccountView,
> {
    if name_is_free(store, account.name) {
        store.push(account)
    } else {
        store
    }
}

/// The store after attempts to add each of `accounts`, first to last.
pub open spec fn store_after_adds(store: Seq<AccountView>, accounts: Seq<AccountView>) -> Seq<
    AccountView,
>
    decreases accounts.len(),
{
    if accounts.len() == 0 {
        store
    } else {
        store_after_add(store_after_adds(store, accounts.drop_last()), accounts.last())
    }
}

/// The activation after an attempt to activate `name`: set, if the store
/// holds the name.
pub open spec fn active_after_activate(
    store: Seq<AccountView>,
    active: Option<Seq<char>>,
    name: Seq<char>,
) -> Option<Seq<char>> {
    if has_name(store, name) {
        Some(name)
    } else {
        active
    }
}

/// `selector` picks position `i` of the store, counted from zero.
pub open spec fn selects(store: Seq<AccountView>, selector: SelectorView, i: int) -> bool {
    match selector {
        SelectorView::Position(p) => 1 <= p <= store.len() && i == p - 1,
        SelectorView::Name(name) => is_first_match(store, name, i),
    }
}

/// `selector` picks some account of the store.
pub open spec fn selectable(store: Seq<AccountView>, selector: SelectorView) -> bool {
    exists|i: int| selects(store, selector, i)
}

/// The activation after the account at position `i` has left the store:
/// cleared if that account was the active one.
pub open spec fn active_after_remove(
    store: Seq<AccountView>,
    active: Option<Seq<char>>,
    i: int,
) -> Option<Seq<char>> {
    if is_active(active, store[i].name) {
        None
    } else {
        active
    }
}

/// A name has one first position at most, and `first_named` is the account
/// there.
pub proof fn lemma_first_match_unique(store: Seq<AccountView>, name: Seq<char>, i: int)
    requires
        is_first_match(store, name, i),
    ensures
        first_named(store, name) == store[i],
        forall|j: int| is_first_match(store, name, j) ==> j == i,
{
    assert forall|j: int| is_first_match(store, name, j) implies j == i by {
        if j < i {
            assert(store[j].name != name);
        }
        if i < j {
            assert(store[i].name != name);
        }
    }
}

/// A selector picks one position at most.
pub proof fn lemma_selects_unique(store: Seq<AccountView>, selector: SelectorView, i: int, j: int)
    requires
        selects(store, selector, i),
        selects(store, selector, j),
    ensures
        i == j,
{
    match selector {
        SelectorView::Position(_) => {},
        SelectorView::Name(name) => {
            lemma_first_match_unique(store, name, i);
        },
    }
}

/// A name that the store holds has a first position.
pub proof fn lemma_has_first_match(store: Seq<AccountView>, name: Seq<char>) -> (i: int)
    requires
        has_name(store, name),
    ensures
        is_first_match(store, name, i),
    decreases store.len(),
{
    let k = choose|k: int| 0 <= k < store.len() && #[trigger] store[k].name == name;
    let front = store.subrange(0, k);
    if has_name(front, name) {
        let i = lemma_has_first_match(front, name);
        assert(forall|j: int| 0 <= j < i ==> front[j] == store[j]);
        assert(front[i] == store[i]);
        assert forall|j: int| 0 <= j < i implies #[trigger] store[j].name != name by {
            assert(front[j].name != name);
        }
        i
    } else {
        assert forall|j: int| 0 <= j < k implies #[trigger] store[j].name != name by {
            assert(front[j] == store[j]);
        }
        k
    }
}

/// The first account under a name that the store holds is an account of the
/// store and carries that name.
pub proof fn lemma_first_named_in_store(store: Seq<AccountView>, name: Seq<char>)
    requires
        has_name(store, name),
    ensures
        first_named(store, name).name == name,
        store.contains(first_named(store, name)),
{
    let i = lemma_has_first_match(store, name);
    lemma_first_match_unique(store, name, i);
}

/// Adding an account under a name that is free appends it: the listed names
/// grow by that name at the end, and distinct names stay distinct.
pub proof fn lemma_add_appends(store: Seq<AccountView>, account: AccountView)
    requires
        name_is_free(store, account.name),
    ensures
        store_after_add(store, account) == store.push(account),
        names_of(store_after_add(store, account)) == names_of(store).push(account.name),
        names_distinct(store) ==> names_distinct(store_after_add(store, account)),
        names_nonempty(store) ==> names_nonempty(store_after_add(store, account)),
{
    let after = store.push(account);
    assert(names_of(after) =~= names_of(store).push(account.name));
    if names_distinct(store) {
        assert forall|i: int, j: int| 0 <= i < j < after.len() implies #[trigger] after[i].name
            != #[trigger] after[j].name by {
            if j == store.len() {
                assert(store[i].name != account.name);
            } else {
                assert(store[i].name != store[j].name);
            }
        }
    }
}

/// Adding under a name that is taken changes nothing.
pub proof fn lemma_add_duplicate_keeps_store(store: Seq<AccountView>, account: AccountView)
    requires
        has_name(store, account.name),
    ensures
        store_after_add(store, account) == store,
{
}

/// Adding under the empty name changes nothing, so the store never comes to
/// hold an account without a name.
pub proof fn lemma_add_empty_name_keeps_store(store: Seq<AccountView>, account: AccountView)
    requires
        account.name.len() == 0,
    ensures
        store_after_add(store, account) == store,
{
}

/// Accounts with pairwise distinct names, none empty and none in the store
/// yet, are all added, in the order in which they came: the store lists the old
/// names and then exactly theirs.
pub proof fn lemma_adds_keep_insertion_order(store: Seq<AccountView>, accounts: Seq<AccountView>)
    requires
        names_distinct(store + accounts),
        names_nonempty(accounts),
    ensures
        store_after_adds(store, accounts) == store + accounts,
        names_of(store_after_adds(store, accounts)) == names_of(store) + names_of(accounts),
        names_distinct(store_after_adds(store, accounts)),
    decreases accounts.len(),
{
    let all = store + accounts;
    if accounts.len() == 0 {
        assert(all =~= store);
    } else {
        let front = accounts.drop_last();
        let last = accounts.last();
        let before = store + front;
        assert forall|i: int, j: int| 0 <= i < j < before.len() implies #[trigger] before[i].name
            != #[trigger] before[j].name by {
            assert(before[i] == all[i] && before[j] == all[j]);
        }
        assert forall|i: int| 0 <= i < front.len() implies (#[trigger] front[i]).name.len()
            > 0 by {
            assert(front[i] == accounts[i]);
        }
        lemma_adds_keep_insertion_order(store, front);
        assert(all[all.len() - 1] == last);
        assert(accounts[accounts.len() - 1].name.len() > 0);
        assert forall|i: int| 0 <= i < before.len() implies #[trigger] before[i].name
            != last.name by {
            assert(before[i] == all[i]);
            assert(all[i].name != all[all.len() - 1].name);
        }
        lemma_add_appends(before, last);
        assert(before.push(last) =~= all);
    }
    assert(names_of(store + accounts) =~= names_of(store) + names_of(accounts));
}

/// From an empty store, adding accounts with distinct names, none empty,
/// lists exactly those names, in insertion order.
pub proof fn lemma_adds_from_empty(accounts: Seq<AccountView>)
    requires
        names_distinct(accounts),
        names_nonempty(accounts),
    ensures
        names_of(store_after_adds(Seq::empty(), accounts)) == names_of(accounts),
{
    assert(Seq::<AccountView>::empty() + accounts =~= accounts);
    lemma_adds_keep_insertion_order(Seq::empty(), accounts);
}

/// Activating a name that the store lacks leaves the activation as it was.
pub proof fn lemma_activate_unknown_keeps_active(
    store: Seq<AccountView>,
    active: Option<Seq<char>>,
    name: Seq<char>,
)
    requires
        !has_name(store, name),
    ensures
        active_after_activate(store, active, name) == active,
{
}

/// Activation is a single slot: once a second account is activated, the
/// first is no longer active and the second is.
pub proof fn lemma_activate_replaces(
    store: Seq<AccountView>,
    active: Option<Seq<char>>,
    first: Seq<char>,
    second: Seq<char>,
)
    requires
        has_name(store, first),
        has_name(store, second),
        first != second,
    ensures
        ({
            let after = active_after_activate(
                store,
                active_after_activate(store, active, first),
                second,
            );
            !is_active(after, first) && is_active(after, second)
        }),
{
}

/// At most one name is active at a time.
pub proof fn lemma_single_active(active: Option<Seq<char>>, a: Seq<char>, b: Seq<char>)
    requires
        is_active(active, a),
        is_active(active, b),
    ensures
        a == b,
{
}

/// Removing the active account clears the activation.
pub proof fn lemma_remove_active_clears(
    store: Seq<AccountView>,
    active: Option<Seq<char>>,
    selector: SelectorView,
    i: int,
)
    requires
        selects(store, selector, i),
        is_active(active, store[i].name),
    ensures
        active_after_remove(store, active, i) == None::<Seq<char>>,
{
}

/// Removing an account that is not the active one leaves the activation
/// as it was.
pub proof fn lemma_remove_inactive_keeps_active(
    store: Seq<AccountView>,
    active: Option<Seq<char>>,
    selector: SelectorView,
    i: int,
)
    requires
        selects(store, selector, i),
        !is_active(active, store[i].name),
    ensures
        active_after_remove(store, active, i) == active,
{
}

/// Removal keeps distinct names distinct, and never leaves the activation
/// pointing at an account that is gone.
pub proof fn lemma_remove_preserves(store: Seq<AccountView>, active: Option<Seq<char>>, i: int)
    requires
        0 <= i < store.len(),
    ensures
        names_distinct(store) ==> names_distinct(store.remove(i)),
        names_nonempty(store) ==> names_nonempty(store.remove(i)),
        active_resolves(store, active) ==> active_resolves(
            store.remove(i),
            active_after_remove(store, active, i),
        ),
{
    let after = store.remove(i);
    if names_nonempty(store) {
        assert forall|a: int| 0 <= a < after.len() implies (#[trigger] after[a]).name.len()
            > 0 by {
            let a0 = if a < i { a } else { a + 1 };
            assert(after[a] == store[a0]);
        }
    }
    if names_distinct(store) {
        assert forall|a: int, b: int| 0 <= a < b < after.len() implies #[trigger] after[a].name
            != #[trigger] after[b].name by {
            let a0 = if a < i { a } else { a + 1 };
            let b0 = if b < i { b } else { b + 1 };
            assert(after[a] == store[a0] && after[b] == store[b0]);
            assert(store[a0].name != store[b0].name);
        }
    }
    if active_resolves(store, active) {
        match active_after_remove(store, active, i) {
            None => {},
            Some(name) => {
                let k = choose|k: int| 0 <= k < store.len() && #[trigger] store[k].name == name;
                assert(k != i);
                let k1 = if k < i { k } else { k - 1 };
                assert(after[k1] == store[k]);
                assert(after[k1].name == name);
            },
        }
    }
}

/// A removal takes one name out of the listing and leaves the others in
/// their order. Where names are distinct, the removed name is gone.
pub proof fn lemma_remove_lists_rest(store: Seq<AccountView>, i: int)
    requires
        0 <= i < store.len(),
    ensures
        names_of(store.remove(i)) == names_of(store).remove(i),
        names_distinct(store) ==> !has_name(store.remove(i), store[i].name),
{
    let after = store.remove(i);
    assert(names_of(after) =~= names_of(store).remove(i));
    if names_distinct(store) {
        assert forall|k: int| 0 <= k < after.len() implies #[trigger] after[k].name
            != store[i].name by {
            let k0 = if k < i { k } else { k + 1 };
            assert(after[k] == store[k0]);
            if k0 < i {
                assert(store[k0].name != store[i].name);
            } else {
                assert(store[i].name != store[k0].name);
            }
        }
    }
}

/// An account that has just been added is not the active one, as long as
/// the activation named an account of the store before.
pub proof fn lemma_added_account_is_inactive(
    store: Seq<AccountView>,
    active: Option<Seq<char>>,
    account: AccountView,
)
    requires
        active_resolves(store, active),
        name_is_free(store, account.name),
    ensures
        !is_active(active, account.name),
{
}

/// Adding and activating never leave the activation pointing at an account
/// that the store lacks.
pub proof fn lemma_add_activate_preserve(
    store: Seq<AccountView>,
    active: Option<Seq<char>>,
    account: AccountView,
    name: Seq<char>,
)
    requires
        active_resolves(store, active),
    ensures
        active_resolves(store_after_add(store, account), active),
        active_resolves(store, active_after_activate(store, active, name)),
{
    let after = store_after_add(store, account);
    match active {
        None => {},
        Some(n) => {
            let k = choose|k: int| 0 <= k < store.len() && #[trigger] store[k].name == n;
            assert(after[k].name == n);
        },
    }
}

} // verus!
