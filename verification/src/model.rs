//! The three operations over a store that keeps what it is given.
//!
//! The platform store is not part of this library, and nothing here is
//! claimed of it: a real store can be locked, unreachable or shared with
//! other programs. This module describes a store that behaves: it holds one
//! secret per entry name, takes every write, and reports an entry that is not
//! there as a failure. Over such a store it states what the operations
//! answer when the host names the entry with [`crate::entry`] and reports
//! the outcome with [`crate::response`], and proves the laws that callers
//! rely on.

use crate::entry::entry_name_of;
use crate::response::{lemma_answers_well_formed, Failure, Operation, ResponseView};
use vstd::prelude::*;

verus! {

/// What a store holds under the library's account: secrets by entry name.
pub type Vault = Map<Seq<char>, Seq<char>>;

/// One call of an operation, with its arguments.
pub enum Request {
    /// Store `value` as the secret of `service` and `key`.
    Store { service: Seq<char>, key: Seq<char>, value: Seq<char> },
    /// Retrieve the secret of `service` and `key`.
    Retrieve { service: Seq<char>, key: Seq<char> },
    /// Delete the secret of `service` and `key`.
    Delete { service: Seq<char>, key: Seq<char> },
}

impl Request {
    /// The operation that is called.
    pub open spec fn operation(self) -> Operation {
        match self {
            Request::Store { .. } => Operation::Store,
            Request::Retrieve { .. } => Operation::Retrieve,
            Request::Delete { .. } => Operation::Delete,
        }
    }

    /// The name of the entry that the call is about.
    pub open spec fn entry(self) -> Seq<char> {
        match self {
            Request::Store { service, key, .. } => entry_name_of(service, key),
            Request::Retrieve { service, key } => entry_name_of(service, key),
            Request::Delete { service, key } => entry_name_of(service, key),
        }
    }

    /// Whether the call writes to the entry `name`.
    pub open spec fn writes(self, name: Seq<char>) -> bool {
        self is Store && self.entry() == name
    }
}

/// What the store holds after `request`.
pub open spec fn vault_after(vault: Vault, request: Request) -> Vault {
    match request {
        Request::Store { value, .. } => vault.insert(request.entry(), value),
        Request::Retrieve { .. } => vault,
        Request::Delete { .. } => vault.remove(request.entry()),
    }
}

/// What `request` answers over `vault`. `message` stands for what the store
/// says of an entry that is not there.
pub open spec fn answer(vault: Vault, request: Request, message: Seq<char>) -> ResponseView {
    match request {
        Request::Store { .. } => ResponseView::done(),
        Request::Retrieve { .. } => if vault.contains_key(request.entry()) {
            ResponseView::found(vault[request.entry()])
        } else {
            ResponseView::failed(Operation::Retrieve, message)
        },
        Request::Delete { .. } => if vault.contains_key(request.entry()) {
            ResponseView::done()
        } else {
            ResponseView::failed(Operation::Delete, message)
        },
    }
}

/// What the store holds after the calls of `history`, in their order.
pub open spec fn vault_through(vault: Vault, history: Seq<Request>) -> Vault
    decreases history.len(),
{
    if history.len() == 0 {
        vault
    } else {
        vault_after(vault_through(vault, history.drop_last()), history.last())
    }
}

/// What a store that began empty holds after the calls of `history`.
pub open spec fn vault_of(history: Seq<Request>) -> Vault {
    vault_through(Map::empty(), history)
}

/// Over the model, each operation answers as the library responds to what a
/// store that behaves reports: a write that went through, the secret that
/// the entry holds, a removal that went through, or, where the entry holds
/// nothing, a failed read or removal with the store's message.
pub proof fn lemma_answer_follows_the_outcome(
    vault: Vault,
    service: Seq<char>,
    key: Seq<char>,
    value: Seq<char>,
    held: String,
    message: String,
)
    ensures
        answer(vault, Request::Store { service, key, value }, message@) == ResponseView::of_store(
            Ok(()),
        ),
        vault.contains_key(entry_name_of(service, key)) && vault[entry_name_of(service, key)]
            == held@ ==> answer(vault, Request::Retrieve { service, key }, message@)
            == ResponseView::of_retrieve(Ok(held)),
        vault.contains_key(entry_name_of(service, key)) ==> answer(
            vault,
            Request::Delete { service, key },
            message@,
        ) == ResponseView::of_delete(Ok(())),
        !vault.contains_key(entry_name_of(service, key)) ==> answer(
            vault,
            Request::Retrieve { service, key },
            message@,
        ) == ResponseView::of_retrieve(Err(Failure::Call(message))),
        !vault.contains_key(entry_name_of(service, key)) ==> answer(
            vault,
            Request::Delete { service, key },
            message@,
        ) == ResponseView::of_delete(Err(Failure::Call(message))),
{
}

/// Every answer over the model is one that its operation can give, and is
/// well formed: a success carries no error, a failure no data.
pub proof fn lemma_answer_is_well_formed(vault: Vault, request: Request, message: Seq<char>)
    ensures
        answer(vault, request, message).answers(request.operation()),
        answer(vault, request, message).well_formed(),
        answer(vault, request, message).success ==> answer(vault, request, message).error is None,
        !answer(vault, request, message).success ==> answer(vault, request, message).data is None,
{
    lemma_answers_well_formed(answer(vault, request, message), request.operation());
}

/// A store that holds nothing under a name holds nothing under it after
/// calls of which none writes to it.
pub proof fn lemma_never_written_is_absent(vault: Vault, history: Seq<Request>, name: Seq<char>)
    requires
        !vault.contains_key(name),
        forall|i: int| 0 <= i < history.len() ==> !(#[trigger] history[i]).writes(name),
    ensures
        !vault_through(vault, history).contains_key(name),
    decreases history.len(),
{
    if history.len() > 0 {
        let earlier = history.drop_last();
        assert forall|i: int| 0 <= i < earlier.len() implies !(#[trigger] earlier[i]).writes(
            name,
        ) by {
            assert(earlier[i] == history[i]);
        }
        lemma_never_written_is_absent(vault, earlier, name);
        assert(!history.last().writes(name));
    }
}

/// Calls about other entries leave an entry as it was: held or not, and with
/// the same secret.
pub proof fn lemma_untouched_entry_is_kept(vault: Vault, history: Seq<Request>, name: Seq<char>)
    requires
        forall|i: int| 0 <= i < history.len() ==> (#[trigger] history[i]).entry() != name,
    ensures
        vault_through(vault, history).contains_key(name) == vault.contains_key(name),
        vault.contains_key(name) ==> vault_through(vault, history)[name] == vault[name],
    decreases history.len(),
{
    if history.len() > 0 {
        let earlier = history.drop_last();
        assert forall|i: int| 0 <= i < earlier.len() implies (#[trigger] earlier[i]).entry()
            != name by {
            assert(earlier[i] == history[i]);
        }
        lemma_untouched_entry_is_kept(vault, earlier, name);
        assert(history.last().entry() != name);
    }
}

/// Store, then retrieve with the same service and key: a success with the
/// value that was stored, whatever the store held before.
pub proof fn lemma_store_then_retrieve(
    vault: Vault,
    service: Seq<char>,
    key: Seq<char>,
    value: Seq<char>,
    message: Seq<char>,
)
    ensures
        answer(vault, Request::Store { service, key, value }, message) == ResponseView::done(),
        answer(
            vault_after(vault, Request::Store { service, key, value }),
            Request::Retrieve { service, key },
            message,
        ) == ResponseView::found(value),
{
}

/// Retrieve from a store that began empty, where no earlier call stored
/// under the entry name of the service and key: a failure without data, with
/// an error text that is not empty.
pub proof fn lemma_retrieve_never_stored(
    history: Seq<Request>,
    service: Seq<char>,
    key: Seq<char>,
    message: Seq<char>,
)
    requires
        forall|i: int|
            0 <= i < history.len() ==> !(#[trigger] history[i]).writes(
                entry_name_of(service, key),
            ),
    ensures
        !answer(vault_of(history), Request::Retrieve { service, key }, message).success,
        answer(vault_of(history), Request::Retrieve { service, key }, message).data is None,
        answer(vault_of(history), Request::Retrieve { service, key }, message)
            == ResponseView::failed(Operation::Retrieve, message),
        answer(vault_of(history), Request::Retrieve { service, key }, message).error->0.len() > 0,
{
    lemma_never_written_is_absent(Map::empty(), history, entry_name_of(service, key));
    lemma_answer_is_well_formed(vault_of(history), Request::Retrieve { service, key }, message);
}

/// Store twice with the same service and key: the second store succeeds, and
/// a retrieve then finds the second value, not the first and not both.
pub proof fn lemma_second_store_overwrites(
    vault: Vault,
    service: Seq<char>,
    key: Seq<char>,
    first: Seq<char>,
    second: Seq<char>,
    message: Seq<char>,
)
    ensures
        ({
            let once = vault_after(vault, Request::Store { service, key, value: first });
            let twice = vault_after(once, Request::Store { service, key, value: second });
            &&& answer(once, Request::Store { service, key, value: second }, message)
                == ResponseView::done()
            &&& answer(twice, Request::Retrieve { service, key }, message) == ResponseView::found(
                second,
            )
        }),
{
}

/// Delete after a store with the same service and key: the delete succeeds,
/// and a retrieve then fails.
pub proof fn lemma_delete_after_store(
    vault: Vault,
    service: Seq<char>,
    key: Seq<char>,
    value: Seq<char>,
    message: Seq<char>,
)
    ensures
        ({
            let stored = vault_after(vault, Request::Store { service, key, value });
            let deleted = vault_after(stored, Request::Delete { service, key });
            &&& answer(stored, Request::Delete { service, key }, message) == ResponseView::done()
            &&& !answer(deleted, Request::Retrieve { service, key }, message).success
        }),
{
}

/// Delete from a store that began empty, where no earlier call stored under
/// the entry name of the service and key: a failure with an error text that
/// is not empty.
pub proof fn lemma_delete_never_stored(
    history: Seq<Request>,
    service: Seq<char>,
    key: Seq<char>,
    message: Seq<char>,
)
    requires
        forall|i: int|
            0 <= i < history.len() ==> !(#[trigger] history[i]).writes(
                entry_name_of(service, key),
            ),
    ensures
        !answer(vault_of(history), Request::Delete { service, key }, message).success,
        answer(vault_of(history), Request::Delete { service, key }, message)
            == ResponseView::failed(Operation::Delete, message),
        answer(vault_of(history), Request::Delete { service, key }, message).error->0.len() > 0,
{
    lemma_never_written_is_absent(Map::empty(), history, entry_name_of(service, key));
    lemma_answer_is_well_formed(vault_of(history), Request::Delete { service, key }, message);
}

/// Calls under other entry names do not interfere: after any number of them
/// a retrieve and a delete answer as they would have before. Pairs that
/// share an entry name are one entry to the store; when two pairs differ,
/// [`crate::entry::lemma_entry_name_tells_pairs_apart`] says where their
/// names differ too.
pub proof fn lemma_other_entries_do_not_interfere(
    vault: Vault,
    history: Seq<Request>,
    service: Seq<char>,
    key: Seq<char>,
    message: Seq<char>,
)
    requires
        forall|i: int|
            0 <= i < history.len() ==> (#[trigger] history[i]).entry() != entry_name_of(
                service,
                key,
            ),
    ensures
        answer(vault_through(vault, history), Request::Retrieve { service, key }, message)
            == answer(vault, Request::Retrieve { service, key }, message),
        answer(vault_through(vault, history), Request::Delete { service, key }, message) == answer(
            vault,
            Request::Delete { service, key },
            message,
        ),
{
    lemma_untouched_entry_is_kept(vault, history, entry_name_of(service, key));
}

/// Two stores under different entry names: each retrieve finds the value
/// stored for its own service and key.
pub proof fn lemma_two_entries_keep_their_own(
    vault: Vault,
    service_a: Seq<char>,
    key_a: Seq<char>,
    value_a: Seq<char>,
    service_b: Seq<char>,
    key_b: Seq<char>,
    value_b: Seq<char>,
    message: Seq<char>,
)
    requires
        entry_name_of(service_a, key_a) != entry_name_of(service_b, key_b),
    ensures
        ({
            let one = vault_after(
                vault,
                Request::Store { service: service_a, key: key_a, value: value_a },
            );
            let both = vault_after(
                one,
                Request::Store { service: service_b, key: key_b, value: value_b },
            );
            &&& answer(both, Request::Retrieve { service: service_a, key: key_a }, message)
                == ResponseView::found(value_a)
            &&& answer(both, Request::Retrieve { service: service_b, key: key_b }, message)
                == ResponseView::found(value_b)
        }),
{
}

} // verus!
