//! The key bindings: which keys ask for which action, how a key is
//! resolved to an action, and how bindings that share a key are found.

use crate::actions::{Action, ACTION_COUNT};
use crate::inputs::Key;
use crate::seqs::{is_first_at, lemma_first_place, occurs_between};
use vstd::prelude::*;

verus! {

/// The keys bound to each action. A key may stand under several actions:
/// such bindings are found by [`KeyBindings::overlapped_keys`], and
/// [`KeyBindings::key_to_action`] resolves them in favour of the action
/// declared first.
#[derive(Debug, Clone)]
pub struct KeyBindings {
    pub quit: Vec<Key>,
    pub open_config_menu: Vec<Key>,
    pub up: Vec<Key>,
    pub down: Vec<Key>,
    pub right: Vec<Key>,
    pub left: Vec<Key>,
    pub next_focus: Vec<Key>,
    pub prev_focus: Vec<Key>,
    pub take_user_input: Vec<Key>,
    pub stop_user_input: Vec<Key>,
    pub hide_ui_element: Vec<Key>,
    pub save_state: Vec<Key>,
    pub new_board: Vec<Key>,
    pub new_card: Vec<Key>,
    pub delete_board: Vec<Key>,
    pub delete_card: Vec<Key>,
    pub change_card_status_to_completed: Vec<Key>,
    pub change_card_status_to_active: Vec<Key>,
    pub change_card_status_to_stale: Vec<Key>,
    pub reset_ui: Vec<Key>,
    pub go_to_main_menu: Vec<Key>,
    pub toggle_command_palette: Vec<Key>,
    pub clear_all_toasts: Vec<Key>,
    pub undo: Vec<Key>,
    pub redo: Vec<Key>,
}

/// Keys that are bound more than once, as found when a configuration is
/// checked. The bindings that were in use before stay usable.
#[derive(Debug, Clone)]
pub struct KeybindConflictError {
    /// Each key that is bound more than once, once, in the order in which
    /// the bindings first name it.
    pub keys: Vec<Key>,
}

/// `k` stands at two different places of `keys`.
pub open spec fn is_shared(keys: Seq<Key>, k: Key) -> bool {
    exists|i: int, j: int| 0 <= i < j < keys.len() && keys[i] == k && keys[j] == k
}

/// The key at place `i` is reported: it stands there for the first time and
/// stands again further on.
pub open spec fn reports(keys: Seq<Key>, i: int) -> bool {
    &&& 0 <= i < keys.len()
    &&& !occurs_between(keys, 0, i, keys[i])
    &&& occurs_between(keys, i + 1, keys.len() as int, keys[i])
}

/// The keys reported among the first `n` places of `keys`, in their order.
pub open spec fn overlaps_upto(keys: Seq<Key>, n: int) -> Seq<Key>
    decreases n,
{
    if n <= 0 {
        Seq::empty()
    } else if reports(keys, n - 1) {
        overlaps_upto(keys, n - 1).push(keys[n - 1])
    } else {
        overlaps_upto(keys, n - 1)
    }
}

/// The keys that stand more than once in `keys`: each of them once, in the
/// order of their first places.
pub open spec fn overlaps(keys: Seq<Key>) -> Seq<Key> {
    overlaps_upto(keys, keys.len() as int)
}

proof fn lemma_overlaps_upto(keys: Seq<Key>, n: int)
    requires
        0 <= n <= keys.len(),
    ensures
        overlaps_upto(keys, n).len() <= n,
        forall|k: Key| #[trigger]
            overlaps_upto(keys, n).contains(k) <==> exists|i: int|
                0 <= i < n && keys[i] == k && reports(keys, i),
        overlaps_upto(keys, n).no_duplicates(),
    decreases n,
{
    if n > 0 {
        lemma_overlaps_upto(keys, n - 1);
        let before = overlaps_upto(keys, n - 1);
        let now = overlaps_upto(keys, n);
        let last = keys[n - 1];
        if reports(keys, n - 1) {
            assert(now == before.push(last));
            assert(!before.contains(last)) by {
                if before.contains(last) {
                    let i = choose|i: int| 0 <= i < n - 1 && keys[i] == last && reports(keys, i);
                    assert(occurs_between(keys, 0, n - 1, last));
                }
            }
            assert forall|k: Key| #[trigger] now.contains(k) implies exists|i: int|
                0 <= i < n && keys[i] == k && reports(keys, i) by {
                let p = choose|p: int| 0 <= p < now.len() && now[p] == k;
                if p < before.len() {
                    assert(before[p] == k);
                    assert(before.contains(k));
                    let i = choose|i: int| 0 <= i < n - 1 && keys[i] == k && reports(keys, i);
                    assert(0 <= i < n && keys[i] == k && reports(keys, i));
                } else {
                    assert(0 <= n - 1 < n && keys[n - 1] == k && reports(keys, n - 1));
                }
            }
            assert forall|k: Key|
                (exists|i: int| 0 <= i < n && keys[i] == k && reports(keys, i)) implies #[trigger]
                now.contains(k) by {
                let i = choose|i: int| 0 <= i < n && keys[i] == k && reports(keys, i);
                if i < n - 1 {
                    assert(before.contains(k));
                    let p = choose|p: int| 0 <= p < before.len() && before[p] == k;
                    assert(now[p] == k);
                } else {
                    assert(now[before.len() as int] == k);
                }
            }
            assert(now.no_duplicates()) by {
                assert forall|p: int, q: int| 0 <= p < now.len() && 0 <= q < now.len() && p != q implies now[p]
                    != now[q] by {
                    if p < before.len() && q < before.len() {
                        assert(before[p] != before[q]);
                    } else if p < before.len() {
                        assert(before.contains(before[p]));
                    } else if q < before.len() {
                        assert(before.contains(before[q]));
                    }
                }
            }
        } else {
            assert(now == before);
            assert forall|k: Key|
                (exists|i: int| 0 <= i < n && keys[i] == k && reports(keys, i)) implies #[trigger]
                now.contains(k) by {
                let i = choose|i: int| 0 <= i < n && keys[i] == k && reports(keys, i);
                assert(i < n - 1);
            }
        }
    }
}

/// What [`overlaps`] holds: exactly the keys that stand more than once, and
/// none of them twice.
pub proof fn lemma_overlaps(keys: Seq<Key>)
    ensures
        forall|k: Key| #[trigger] overlaps(keys).contains(k) <==> is_shared(keys, k),
        overlaps(keys).no_duplicates(),
        overlaps(keys).len() == 0 <==> keys.no_duplicates(),
{
    let n = keys.len() as int;
    lemma_overlaps_upto(keys, n);
    assert forall|k: Key| #[trigger] overlaps(keys).contains(k) implies is_shared(keys, k) by {
        let i = choose|i: int| 0 <= i < n && keys[i] == k && reports(keys, i);
        let j = choose|j: int| i + 1 <= j < n && 0 <= j < keys.len() && keys[j] == keys[i];
        assert(0 <= i < j < keys.len() && keys[i] == k && keys[j] == k);
    }
    assert forall|k: Key| is_shared(keys, k) implies #[trigger] overlaps(keys).contains(k) by {
        let (a, b) = choose|a: int, b: int| 0 <= a < b < keys.len() && keys[a] == k && keys[b] == k;
        assert(keys.contains(k));
        lemma_first_place(keys, k);
        let i = crate::seqs::first_place(keys, k);
        assert(is_first_at(keys, k, i));
        assert(i <= a);
        assert(occurs_between(keys, i + 1, n, k));
        assert(0 <= i < n && keys[i] == k && reports(keys, i));
    }
    if keys.no_duplicates() {
        if overlaps(keys).len() > 0 {
            let k = overlaps(keys)[0];
            assert(overlaps(keys).contains(k));
            assert(is_shared(keys, k));
        }
    } else {
        let (a, b) = choose|a: int, b: int|
            0 <= a < keys.len() && 0 <= b < keys.len() && a != b && keys[a] == keys[b];
        let k = keys[a];
        if a < b {
            assert(0 <= a < b < keys.len() && keys[a] == k && keys[b] == k);
        } else {
            assert(0 <= b < a < keys.len() && keys[b] == k && keys[a] == k);
        }
        assert(is_shared(keys, k));
        assert(overlaps(keys).contains(k));
    }
}

/// Whether `key` is one of `keys`.
fn holds_key(keys: &Vec<Key>, key: Key) -> (r: bool)
    ensures
        r == keys@.contains(key),
{
    let mut i: usize = 0;
    while i < keys.len()
        invariant
            i <= keys.len(),
            forall|j: int| 0 <= j < i ==> keys@[j] != key,
        decreases keys.len() - i,
    {
        if keys[i] == key {
            return true;
        }
        i += 1;
    }
    false
}

/// Whether `key` stands in `keys` from place `from` up to, not including,
/// `to`.
fn occurs(keys: &Vec<Key>, from: usize, to: usize, key: Key) -> (r: bool)
    requires
        from <= to <= keys.len(),
    ensures
        r == occurs_between(keys@, from as int, to as int, key),
{
    let mut i: usize = from;
    while i < to
        invariant
            from <= i <= to <= keys.len(),
            forall|j: int| from <= j < i ==> keys@[j] != key,
        decreases to - i,
    {
        if keys[i] == key {
            assert(from <= i < to && 0 <= i < keys@.len() && keys@[i as int] == key);
            return true;
        }
        i += 1;
    }
    false
}

impl KeyBindings {
    /// The keys bound to `action`.
    pub open spec fn bound(self, action: Action) -> Seq<Key> {
        match action {
            Action::Quit => self.quit@,
            Action::NextFocus => self.next_focus@,
            Action::PrvFocus => self.prev_focus@,
            Action::OpenConfigMenu => self.open_config_menu@,
            Action::Up => self.up@,
            Action::Down => self.down@,
            Action::Right => self.right@,
            Action::Left => self.left@,
            Action::TakeUserInput => self.take_user_input@,
            Action::StopUserInput => self.stop_user_input@,
            Action::HideUiElement => self.hide_ui_element@,
            Action::SaveState => self.save_state@,
            Action::NewBoard => self.new_board@,
            Action::NewCard => self.new_card@,
            Action::DeleteCard => self.delete_card@,
            Action::DeleteBoard => self.delete_board@,
            Action::ChangeCardStatusToCompleted => self.change_card_status_to_completed@,
            Action::ChangeCardStatusToActive => self.change_card_status_to_active@,
            Action::ChangeCardStatusToStale => self.change_card_status_to_stale@,
            Action::ResetUI => self.reset_ui@,
            Action::GoToMainMenu => self.go_to_main_menu@,
            Action::ToggleCommandPalette => self.toggle_command_palette@,
            Action::ClearAllToasts => self.clear_all_toasts@,
            Action::Undo => self.undo@,
            Action::Redo => self.redo@,
        }
    }

    /// The keys of the first `n` actions of the declared order, one action
    /// after the other.
    pub open spec fn keys_upto(self, n: int) -> Seq<Key>
        decreases n,
    {
        if n <= 0 {
            Seq::empty()
        } else {
            self.keys_upto(n - 1) + self.bound(Action::order()[n - 1])
        }
    }

    /// Every bound key, action by action in the declared order. A key stands
    /// here as often as it is bound.
    pub open spec fn all_keys(self) -> Seq<Key> {
        self.keys_upto(ACTION_COUNT as int)
    }

    /// The place among all the bound keys of the key at place `p` of the
    /// action at place `i` of the declared order.
    pub open spec fn place_of(self, i: int, p: int) -> int {
        self.keys_upto(i).len() + p
    }

    /// The first action, from place `from` of the declared order on, that
    /// `key` is bound to.
    pub open spec fn resolve_from(self, key: Key, from: int) -> Option<Action>
        decreases ACTION_COUNT - from,
    {
        if from < 0 || from >= ACTION_COUNT {
            None
        } else if self.bound(Action::order()[from]).contains(key) {
            Some(Action::order()[from])
        } else {
            self.resolve_from(key, from + 1)
        }
    }

    /// The action that `key` asks for: the first action of the declared
    /// order that `key` is bound to.
    pub open spec fn resolve(self, key: Key) -> Option<Action> {
        self.resolve_from(key, 0)
    }

    /// No key is bound more than once.
    pub open spec fn conflict_free(self) -> bool {
        self.all_keys().no_duplicates()
    }

    /// The keys that the default bindings give to `action`.
    pub open spec fn default_keys(action: Action) -> Seq<Key> {
        match action {
            Action::Quit => seq![Key::Ctrl('c'), Key::Char('q')],
            Action::NextFocus => seq![Key::Tab],
            Action::PrvFocus => seq![Key::BackTab],
            Action::OpenConfigMenu => seq![Key::Char('c')],
            Action::Up => seq![Key::Up],
            Action::Down => seq![Key::Down],
            Action::Right => seq![Key::Right],
            Action::Left => seq![Key::Left],
            Action::TakeUserInput => seq![Key::Char('i')],
            Action::StopUserInput => seq![Key::Ins],
            Action::HideUiElement => seq![Key::Char('h')],
            Action::SaveState => seq![Key::Ctrl('s')],
            Action::NewBoard => seq![Key::Char('b')],
            Action::NewCard => seq![Key::Char('n')],
            Action::DeleteCard => seq![Key::Char('d')],
            Action::DeleteBoard => seq![Key::Char('D')],
            Action::ChangeCardStatusToCompleted => seq![Key::Char('1')],
            Action::ChangeCardStatusToActive => seq![Key::Char('2')],
            Action::ChangeCardStatusToStale => seq![Key::Char('3')],
            Action::ResetUI => seq![Key::Char('r')],
            Action::GoToMainMenu => seq![Key::Char('m')],
            Action::ToggleCommandPalette => seq![Key::Ctrl('p')],
            Action::ClearAllToasts => seq![Key::Char('t')],
            Action::Undo => seq![Key::Ctrl('z')],
            Action::Redo => seq![Key::Ctrl('y')],
        }
    }

    /// These are the default bindings.
    pub open spec fn is_default(self) -> bool {
        forall|action: Action| #[trigger] self.bound(action) == KeyBindings::default_keys(action)
    }

    proof fn lemma_resolve_from(self, key: Key, from: int)
        requires
            0 <= from <= ACTION_COUNT,
        ensures
            match self.resolve_from(key, from) {
                Some(action) => {
                    &&& from <= action.rank()
                    &&& self.bound(action).contains(key)
                    &&& forall|i: int|
                        from <= i < action.rank() ==> !self.bound(#[trigger] Action::order()[i]).contains(
                            key,
                        )
                },
                None => forall|i: int|
                    from <= i < ACTION_COUNT ==> !self.bound(#[trigger] Action::order()[i]).contains(key),
            },
        decreases ACTION_COUNT - from,
    {
        if from < ACTION_COUNT {
            Action::lemma_order_ranks(Action::order()[from]);
            if !self.bound(Action::order()[from]).contains(key) {
                self.lemma_resolve_from(key, from + 1);
            }
        }
    }

    /// What resolving a key gives: an action that the key is bound to, such
    /// that no action declared before it holds the key; `None` exactly when
    /// the key is bound to no action.
    pub proof fn lemma_resolve(self, key: Key)
        ensures
            match self.resolve(key) {
                Some(action) => {
                    &&& self.bound(action).contains(key)
                    &&& forall|other: Action|
                        other.rank() < action.rank() ==> !(#[trigger] self.bound(other)).contains(key)
                },
                None => forall|other: Action| !(#[trigger] self.bound(other)).contains(key),
            },
    {
        self.lemma_resolve_from(key, 0);
        assert forall|other: Action| #![auto] Action::order()[other.rank()] == other by {
            Action::lemma_order_ranks(other);
        }
        match self.resolve(key) {
            Some(action) => {
                assert forall|other: Action| other.rank() < action.rank() implies !(
                #[trigger] self.bound(other)).contains(key) by {
                    Action::lemma_order_ranks(other);
                    assert(Action::order()[other.rank()] == other);
                }
            },
            None => {
                assert forall|other: Action| !(#[trigger] self.bound(other)).contains(key) by {
                    Action::lemma_order_ranks(other);
                    assert(Action::order()[other.rank()] == other);
                }
            },
        }
    }

    proof fn lemma_keys_upto(self, n: int, i: int, p: int)
        requires
            0 <= i < n <= ACTION_COUNT,
            0 <= p < self.bound(Action::order()[i]).len(),
        ensures
            self.keys_upto(i).len() + p < self.keys_upto(i + 1).len() <= self.keys_upto(n).len(),
            self.keys_upto(n)[self.keys_upto(i).len() + p] == self.bound(Action::order()[i])[p],
        decreases n,
    {
        if n > i + 1 {
            self.lemma_keys_upto(n - 1, i, p);
        }
    }

    proof fn lemma_keys_upto_origin(self, n: int, q: int)
        requires
            0 <= n <= ACTION_COUNT,
            0 <= q < self.keys_upto(n).len(),
        ensures
            exists|i: int, p: int|
                0 <= i < n && 0 <= p < self.bound(Action::order()[i]).len() && q
                    == #[trigger] self.place_of(i, p),
        decreases n,
    {
        if n > 0 {
            if q < self.keys_upto(n - 1).len() {
                self.lemma_keys_upto_origin(n - 1, q);
                let (i, p) = choose|i: int, p: int|
                    0 <= i < n - 1 && 0 <= p < self.bound(Action::order()[i]).len() && q
                        == #[trigger] self.place_of(i, p);
                assert(0 <= i < n && 0 <= p < self.bound(Action::order()[i]).len() && q
                    == self.place_of(i, p));
            } else {
                let p = q - self.keys_upto(n - 1).len();
                assert(0 <= n - 1 < n && 0 <= p < self.bound(Action::order()[n - 1]).len() && q
                    == self.place_of(n - 1, p));
            }
        }
    }

    /// A key is among all the bound keys exactly when some action holds it.
    pub proof fn lemma_all_keys(self, key: Key)
        ensures
            self.all_keys().contains(key) <==> exists|action: Action| #[trigger]
                self.bound(action).contains(key),
    {
        let n = ACTION_COUNT as int;
        if self.all_keys().contains(key) {
            let q = choose|q: int| 0 <= q < self.all_keys().len() && self.all_keys()[q] == key;
            self.lemma_keys_upto_origin(n, q);
            let (i, p) = choose|i: int, p: int|
                0 <= i < n && 0 <= p < self.bound(Action::order()[i]).len() && q
                    == #[trigger] self.place_of(i, p);
            self.lemma_keys_upto(n, i, p);
            assert(self.bound(Action::order()[i])[p] == key);
            assert(self.bound(Action::order()[i]).contains(key));
        }
        if exists|action: Action| #[trigger] self.bound(action).contains(key) {
            let action = choose|action: Action| #[trigger] self.bound(action).contains(key);
            Action::lemma_order_ranks(action);
            let p = choose|p: int| 0 <= p < self.bound(action).len() && self.bound(action)[p] == key;
            self.lemma_keys_upto(n, action.rank(), p);
            assert(self.all_keys()[self.keys_upto(action.rank()).len() + p] == key);
        }
    }

    /// A key that two different actions hold is bound more than once, and so
    /// is a key that one action holds twice.
    pub proof fn lemma_shared_key(self, key: Key, first: Action, second: Action)
        requires
            self.bound(first).contains(key),
            self.bound(second).contains(key),
            first != second || exists|p: int, q: int|
                0 <= p < q < self.bound(first).len() && self.bound(first)[p] == key && self.bound(
                    first,
                )[q] == key,
        ensures
            is_shared(self.all_keys(), key),
            overlaps(self.all_keys()).contains(key),
            !self.conflict_free(),
    {
        let n = ACTION_COUNT as int;
        Action::lemma_order_ranks(first);
        Action::lemma_order_ranks(second);
        let keys = self.all_keys();
        if first != second {
            let (a, b) = if first.rank() < second.rank() {
                (first, second)
            } else {
                (second, first)
            };
            let p = choose|p: int| 0 <= p < self.bound(a).len() && self.bound(a)[p] == key;
            let q = choose|q: int| 0 <= q < self.bound(b).len() && self.bound(b)[q] == key;
            self.lemma_keys_upto(n, a.rank(), p);
            self.lemma_keys_upto(n, b.rank(), q);
            self.lemma_keys_upto(b.rank(), a.rank(), p);
            let i = self.keys_upto(a.rank()).len() + p;
            let j = self.keys_upto(b.rank()).len() + q;
            assert(0 <= i < j < keys.len() && keys[i] == key && keys[j] == key);
        } else {
            let (p, q) = choose|p: int, q: int|
                0 <= p < q < self.bound(first).len() && self.bound(first)[p] == key && self.bound(
                    first,
                )[q] == key;
            self.lemma_keys_upto(n, first.rank(), p);
            self.lemma_keys_upto(n, first.rank(), q);
            let i = self.keys_upto(first.rank()).len() + p;
            let j = self.keys_upto(first.rank()).len() + q;
            assert(0 <= i < j < keys.len() && keys[i] == key && keys[j] == key);
        }
        lemma_overlaps(keys);
        assert(keys[choose|i: int| 0 <= i < keys.len() && keys[i] == key] == key);
    }

    /// Where no key is bound more than once, resolving a key is a plain
    /// lookup: it gives the one action that holds the key.
    pub proof fn lemma_resolve_is_lookup(self, key: Key, action: Action)
        requires
            self.conflict_free(),
            self.bound(action).contains(key),
        ensures
            self.resolve(key) == Some(action),
    {
        self.lemma_resolve(key);
        match self.resolve(key) {
            Some(found) => {
                if found != action {
                    self.lemma_shared_key(key, found, action);
                }
            },
            None => {},
        }
    }

    /// The keys of the default bindings, action by action.
    pub open spec fn default_all_keys() -> Seq<Key> {
        seq![Key::Ctrl('c'), Key::Char('q'), Key::Tab, Key::BackTab, Key::Char('c'), Key::Up, Key::Down, Key::Right, Key::Left, Key::Char('i'), Key::Ins, Key::Char('h'), Key::Ctrl('s'), Key::Char('b'), Key::Char('n'), Key::Char('d'), Key::Char('D'), Key::Char('1'), Key::Char('2'), Key::Char('3'), Key::Char('r'), Key::Char('m'), Key::Ctrl('p'), Key::Char('t'), Key::Ctrl('z'), Key::Ctrl('y')]
    }

    proof fn lemma_default_all_keys(self)
        requires
            self.is_default(),
        ensures
            self.all_keys() == KeyBindings::default_all_keys(),
    {
        assert(self.keys_upto(0) =~= Seq::<Key>::empty());
        assert(self.bound(Action::Quit) == KeyBindings::default_keys(Action::Quit));
        assert(self.keys_upto(1) =~= seq![Key::Ctrl('c'), Key::Char('q')]);
        assert(self.bound(Action::NextFocus) == KeyBindings::default_keys(Action::NextFocus));
        assert(self.keys_upto(2) =~= seq![Key::Ctrl('c'), Key::Char('q'), Key::Tab]);
        assert(self.bound(Action::PrvFocus) == KeyBindings::default_keys(Action::PrvFocus));
        assert(self.keys_upto(3) =~= seq![Key::Ctrl('c'), Key::Char('q'), Key::Tab, Key::BackTab]);
        assert(self.bound(Action::OpenConfigMenu) == KeyBindings::default_keys(Action::OpenConfigMenu));
        assert(self.keys_upto(4) =~= seq![Key::Ctrl('c'), Key::Char('q'), Key::Tab, Key::BackTab, Key::Char('c')]);
        assert(self.bound(Action::Up) == KeyBindings::default_keys(Action::Up));
        assert(self.keys_upto(5) =~= seq![Key::Ctrl('c'), Key::Char('q'), Key::Tab, Key::BackTab, Key::Char('c'), Key::Up]);
        assert(self.bound(Action::Down) == KeyBindings::default_keys(Action::Down));
        assert(self.keys_upto(6) =~= seq![Key::Ctrl('c'), Key::Char('q'), Key::Tab, Key::BackTab, Key::Char('c'), Key::Up, Key::Down]);
        assert(self.bound(Action::Right) == KeyBindings::default_keys(Action::Right));
        assert(self.keys_upto(7) =~= seq![Key::Ctrl('c'), Key::Char('q'), Key::Tab, Key::BackTab, Key::Char('c'), Key::Up, Key::Down, Key::Right]);
        assert(self.bound(Action::Left) == KeyBindings::default_keys(Action::Left));
        assert(self.keys_upto(8) =~= seq![Key::Ctrl('c'), Key::Char('q'), Key::Tab, Key::BackTab, Key::Char('c'), Key::Up, Key::Down, Key::Right, Key::Left]);
        assert(self.bound(Action::TakeUserInput) == KeyBindings::default_keys(Action::TakeUserInput));
        assert(self.keys_upto(9) =~= seq![Key::Ctrl('c'), Key::Char('q'), Key::Tab, Key::BackTab, Key::Char('c'), Key::Up, Key::Down, Key::Right, Key::Left, Key::Char('i')]);
        assert(self.bound(Action::StopUserInput) == KeyBindings::default_keys(Action::StopUserInput));
        assert(self.keys_upto(10) =~= seq![Key::Ctrl('c'), Key::Char('q'), Key::Tab, Key::BackTab, Key::Char('c'), Key::Up, Key::Down, Key::Right, Key::Left, Key::Char('i'), Key::Ins]);
        assert(self.bound(Action::HideUiElement) == KeyBindings::default_keys(Action::HideUiElement));
        assert(self.keys_upto(11) =~= seq![Key::Ctrl('c'), Key::Char('q'), Key::Tab, Key::BackTab, Key::Char('c'), Key::Up, Key::Down, Key::Right, Key::Left, Key::Char('i'), Key::Ins, Key::Char('h')]);
        assert(self.bound(Action::SaveState) == KeyBindings::default_keys(Action::SaveState));
        assert(self.keys_upto(12) =~= seq![Key::Ctrl('c'), Key::Char('q'), Key::Tab, Key::BackTab, Key::Char('c'), Key::Up, Key::Down, Key::Right, Key::Left, Key::Char('i'), Key::Ins, Key::Char('h'), Key::Ctrl('s')]);
        assert(self.bound(Action::NewBoard) == KeyBindings::default_keys(Action::NewBoard));
        assert(self.keys_upto(13) =~= seq![Key::Ctrl('c'), Key::Char('q'), Key::Tab, Key::BackTab, Key::Char('c'), Key::Up, Key::Down, Key::Right, Key::Left, Key::Char('i'), Key::Ins, Key::Char('h'), Key::Ctrl('s'), Key::Char('b')]);
        assert(self.bound(Action::NewCard) == KeyBindings::default_keys(Action::NewCard));
        assert(self.keys_upto(14) =~= seq![Key::Ctrl('c'), Key::Char('q'), Key::Tab, Key::BackTab, Key::Char('c'), Key::Up, Key::Down, Key::Right, Key::Left, Key::Char('i'), Key::Ins, Key::Char('h'), Key::Ctrl('s'), Key::Char('b'), Key::Char('n')]);
        assert(self.bound(Action::DeleteCard) == KeyBindings::default_keys(Action::DeleteCard));
        assert(self.keys_upto(15) =~= seq![Key::Ctrl('c'), Key::Char('q'), Key::Tab, Key::BackTab, Key::Char('c'), Key::Up, Key::Down, Key::Right, Key::Left, Key::Char('i'), Key::Ins, Key::Char('h'), Key::Ctrl('s'), Key::Char('b'), Key::Char('n'), Key::Char('d')]);
        assert(self.bound(Action::DeleteBoard) == KeyBindings::default_keys(Action::DeleteBoard));
        assert(self.keys_upto(16) =~= seq![Key::Ctrl('c'), Key::Char('q'), Key::Tab, Key::BackTab, Key::Char('c'), Key::Up, Key::Down, Key::Right, Key::Left, Key::Char('i'), Key::Ins, Key::Char('h'), Key::Ctrl('s'), Key::Char('b'), Key::Char('n'), Key::Char('d'), Key::Char('D')]);
        assert(self.bound(Action::ChangeCardStatusToCompleted) == KeyBindings::default_keys(Action::ChangeCardStatusToCompleted));
        assert(self.keys_upto(17) =~= seq![Key::Ctrl('c'), Key::Char('q'), Key::Tab, Key::BackTab, Key::Char('c'), Key::Up, Key::Down, Key::Right, Key::Left, Key::Char('i'), Key::Ins, Key::Char('h'), Key::Ctrl('s'), Key::Char('b'), Key::Char('n'), Key::Char('d'), Key::Char('D'), Key::Char('1')]);
        assert(self.bound(Action::ChangeCardStatusToActive) == KeyBindings::default_keys(Action::ChangeCardStatusToActive));
        assert(self.keys_upto(18) =~= seq![Key::Ctrl('c'), Key::Char('q'), Key::Tab, Key::BackTab, Key::Char('c'), Key::Up, Key::Down, Key::Right, Key::Left, Key::Char('i'), Key::Ins, Key::Char('h'), Key::Ctrl('s'), Key::Char('b'), Key::Char('n'), Key::Char('d'), Key::Char('D'), Key::Char('1'), Key::Char('2')]);
        assert(self.bound(Action::ChangeCardStatusToStale) == KeyBindings::default_keys(Action::ChangeCardStatusToStale));
        assert(self.keys_upto(19) =~= seq![Key::Ctrl('c'), Key::Char('q'), Key::Tab, Key::BackTab, Key::Char('c'), Key::Up, Key::Down, Key::Right, Key::Left, Key::Char('i'), Key::Ins, Key::Char('h'), Key::Ctrl('s'), Key::Char('b'), Key::Char('n'), Key::Char('d'), Key::Char('D'), Key::Char('1'), Key::Char('2'), Key::Char('3')]);
        assert(self.bound(Action::ResetUI) == KeyBindings::default_keys(Action::ResetUI));
        assert(self.keys_upto(20) =~= seq![Key::Ctrl('c'), Key::Char('q'), Key::Tab, Key::BackTab, Key::Char('c'), Key::Up, Key::Down, Key::Right, Key::Left, Key::Char('i'), Key::Ins, Key::Char('h'), Key::Ctrl('s'), Key::Char('b'), Key::Char('n'), Key::Char('d'), Key::Char('D'), Key::Char('1'), Key::Char('2'), Key::Char('3'), Key::Char('r')]);
        assert(self.bound(Action::GoToMainMenu) == KeyBindings::default_keys(Action::GoToMainMenu));
        assert(self.keys_upto(21) =~= seq![Key::Ctrl('c'), Key::Char('q'), Key::Tab, Key::BackTab, Key::Char('c'), Key::Up, Key::Down, Key::Right, Key::Left, Key::Char('i'), Key::Ins, Key::Char('h'), Key::Ctrl('s'), Key::Char('b'), Key::Char('n'), Key::Char('d'), Key::Char('D'), Key::Char('1'), Key::Char('2'), Key::Char('3'), Key::Char('r'), Key::Char('m')]);
        assert(self.bound(Action::ToggleCommandPalette) == KeyBindings::default_keys(Action::ToggleCommandPalette));
        assert(self.keys_upto(22) =~= seq![Key::Ctrl('c'), Key::Char('q'), Key::Tab, Key::BackTab, Key::Char('c'), Key::Up, Key::Down, Key::Right, Key::Left, Key::Char('i'), Key::Ins, Key::Char('h'), Key::Ctrl('s'), Key::Char('b'), Key::Char('n'), Key::Char('d'), Key::Char('D'), Key::Char('1'), Key::Char('2'), Key::Char('3'), Key::Char('r'), Key::Char('m'), Key::Ctrl('p')]);
        assert(self.bound(Action::ClearAllToasts) == KeyBindings::default_keys(Action::ClearAllToasts));
        assert(self.keys_upto(23) =~= seq![Key::Ctrl('c'), Key::Char('q'), Key::Tab, Key::BackTab, Key::Char('c'), Key::Up, Key::Down, Key::Right, Key::Left, Key::Char('i'), Key::Ins, Key::Char('h'), Key::Ctrl('s'), Key::Char('b'), Key::Char('n'), Key::Char('d'), Key::Char('D'), Key::Char('1'), Key::Char('2'), Key::Char('3'), Key::Char('r'), Key::Char('m'), Key::Ctrl('p'), Key::Char('t')]);
        assert(self.bound(Action::Undo) == KeyBindings::default_keys(Action::Undo));
        assert(self.keys_upto(24) =~= seq![Key::Ctrl('c'), Key::Char('q'), Key::Tab, Key::BackTab, Key::Char('c'), Key::Up, Key::Down, Key::Right, Key::Left, Key::Char('i'), Key::Ins, Key::Char('h'), Key::Ctrl('s'), Key::Char('b'), Key::Char('n'), Key::Char('d'), Key::Char('D'), Key::Char('1'), Key::Char('2'), Key::Char('3'), Key::Char('r'), Key::Char('m'), Key::Ctrl('p'), Key::Char('t'), Key::Ctrl('z')]);
        assert(self.bound(Action::Redo) == KeyBindings::default_keys(Action::Redo));
        assert(self.keys_upto(25) =~= seq![Key::Ctrl('c'), Key::Char('q'), Key::Tab, Key::BackTab, Key::Char('c'), Key::Up, Key::Down, Key::Right, Key::Left, Key::Char('i'), Key::Ins, Key::Char('h'), Key::Ctrl('s'), Key::Char('b'), Key::Char('n'), Key::Char('d'), Key::Char('D'), Key::Char('1'), Key::Char('2'), Key::Char('3'), Key::Char('r'), Key::Char('m'), Key::Ctrl('p'), Key::Char('t'), Key::Ctrl('z'), Key::Ctrl('y')]);
        assert(self.all_keys() =~= KeyBindings::default_all_keys());
    }

    /// The default bindings bind no key more than once.
    pub proof fn lemma_default_conflict_free(self)
        requires
            self.is_default(),
        ensures
            self.conflict_free(),
            overlaps(self.all_keys()).len() == 0,
    {
        self.lemma_default_all_keys();
        assert(KeyBindings::default_all_keys().no_duplicates());
        lemma_overlaps(self.all_keys());
    }

    /// The bindings with the name of their action, in the declared order.
    pub fn iter(&self) -> (r: Vec<(&'static str, &Vec<Key>)>)
        ensures
            r.len() == ACTION_COUNT,
            forall|i: int|
                0 <= i < ACTION_COUNT ==> {
                    &&& (#[trigger] r[i]).0@ == Action::order()[i].name()
                    &&& r[i].1@ == self.bound(Action::order()[i])
                },
    {
        vec![
            ("quit", &self.quit),
            ("next_focus", &self.next_focus),
            ("prev_focus", &self.prev_focus),
            ("open_config_menu", &self.open_config_menu),
            ("up", &self.up),
            ("down", &self.down),
            ("right", &self.right),
            ("left", &self.left),
            ("take_user_input", &self.take_user_input),
            ("stop_user_input", &self.stop_user_input),
            ("hide_ui_element", &self.hide_ui_element),
            ("save_state", &self.save_state),
            ("new_board", &self.new_board),
            ("new_card", &self.new_card),
            ("delete_card", &self.delete_card),
            ("delete_board", &self.delete_board),
            ("change_card_status_to_completed", &self.change_card_status_to_completed),
            ("change_card_status_to_active", &self.change_card_status_to_active),
            ("change_card_status_to_stale", &self.change_card_status_to_stale),
            ("reset_ui", &self.reset_ui),
            ("go_to_main_menu", &self.go_to_main_menu),
            ("toggle_command_palette", &self.toggle_command_palette),
            ("clear_all_toasts", &self.clear_all_toasts),
            ("undo", &self.undo),
            ("redo", &self.redo),
        ]
    }

    /// The action that `key` asks for. The bindings are scanned in the
    /// declared order, so a key bound to several actions gives the one
    /// declared first; a key bound to none gives `None`.
    pub fn key_to_action(self, key: Key) -> (r: Option<&'static Action>)
        ensures
            match r {
                Some(action) => self.resolve(key) == Some(*action),
                None => self.resolve(key) is None,
            },
    {
        self.action_for(key)
    }

    /// The action that `key` asks for, as [`KeyBindings::key_to_action`]
    /// gives it, for bindings that are to be used again.
    pub fn action_for(&self, key: Key) -> (r: Option<&'static Action>)
        ensures
            match r {
                Some(action) => self.resolve(key) == Some(*action),
                None => self.resolve(key) is None,
            },
    {
        let entries = self.iter();
        let mut i: usize = 0;
        while i < ACTION_COUNT
            invariant
                i <= ACTION_COUNT,
                entries.len() == ACTION_COUNT,
                forall|j: int|
                    0 <= j < ACTION_COUNT ==> (#[trigger] entries[j]).1@ == self.bound(Action::order()[j]),
                self.resolve(key) == self.resolve_from(key, i as int),
            decreases ACTION_COUNT - i,
        {
            if holds_key(entries[i].1, key) {
                return Action::at_rank(i);
            }
            i += 1;
        }
        None
    }

    /// The action that a configuration means by the name `action`; names are
    /// matched exactly.
    pub fn str_to_action(self, action: &str) -> (r: Option<&'static Action>)
        ensures
            match r {
                Some(found) => Action::named(action@) == Some(*found),
                None => Action::named(action@) is None,
            },
    {
        Action::from_name(action)
    }

    /// Every bound key, action by action in the declared order.
    pub fn bound_keys(&self) -> (r: Vec<Key>)
        ensures
            r@ == self.all_keys(),
    {
        let entries = self.iter();
        let mut keys: Vec<Key> = Vec::new();
        let mut i: usize = 0;
        while i < ACTION_COUNT
            invariant
                i <= ACTION_COUNT,
                entries.len() == ACTION_COUNT,
                forall|j: int|
                    0 <= j < ACTION_COUNT ==> (#[trigger] entries[j]).1@ == self.bound(Action::order()[j]),
                keys@ == self.keys_upto(i as int),
            decreases ACTION_COUNT - i,
        {
            let bound = entries[i].1;
            let ghost before = keys@;
            let mut p: usize = 0;
            while p < bound.len()
                invariant
                    p <= bound.len(),
                    keys@ == before + bound@.take(p as int),
                decreases bound.len() - p,
            {
                keys.push(bound[p]);
                p += 1;
                assert(bound@.take(p as int) == bound@.take(p - 1).push(bound@[p - 1]));
            }
            assert(bound@.take(bound@.len() as int) == bound@);
            i += 1;
        }
        keys
    }

    /// The keys that are bound more than once: each of them once, in the
    /// order in which the bindings first name them. Two bindings of one key
    /// under the same action count like two under different actions.
    pub fn overlapped_keys(&self) -> (r: Vec<Key>)
        ensures
            r@ == overlaps(self.all_keys()),
            r@.no_duplicates(),
            forall|k: Key| #[trigger] r@.contains(k) <==> is_shared(self.all_keys(), k),
            r.len() == 0 <==> self.conflict_free(),
    {
        let keys = self.bound_keys();
        let mut found: Vec<Key> = Vec::new();
        let mut i: usize = 0;
        while i < keys.len()
            invariant
                i <= keys.len(),
                found@ == overlaps_upto(keys@, i as int),
            decreases keys.len() - i,
        {
            let key = keys[i];
            if !occurs(&keys, 0, i, key) && occurs(&keys, i + 1, keys.len(), key) {
                found.push(key);
            }
            i += 1;
        }
        proof {
            lemma_overlaps(keys@);
        }
        found
    }

    /// Checks the bindings as a configuration is loaded. With
    /// `ignore_overlapped_keybinds` every set of bindings passes. Without
    /// it, bindings pass exactly when no key is bound more than once, and
    /// the error names the keys that are.
    pub fn check_overlaps(&self, ignore_overlapped_keybinds: bool) -> (r: Result<
        (),
        KeybindConflictError,
    >)
        ensures
            r is Ok <==> ignore_overlapped_keybinds || self.conflict_free(),
            r matches Err(e) ==> e.keys@ == overlaps(self.all_keys()) && e.keys.len() > 0,
    {
        if ignore_overlapped_keybinds {
            return Ok(());
        }
        let keys = self.overlapped_keys();
        if keys.len() == 0 {
            Ok(())
        } else {
            Err(KeybindConflictError { keys })
        }
    }
}

impl Default for KeyBindings {
    /// The bindings that the application starts with.
    fn default() -> (r: KeyBindings)
        ensures
            r.is_default(),
            r.conflict_free(),
    {
        let r = KeyBindings {
            quit: vec![Key::Ctrl('c'), Key::Char('q')],
            next_focus: vec![Key::Tab],
            prev_focus: vec![Key::BackTab],
            open_config_menu: vec![Key::Char('c')],
            up: vec![Key::Up],
            down: vec![Key::Down],
            right: vec![Key::Right],
            left: vec![Key::Left],
            take_user_input: vec![Key::Char('i')],
            stop_user_input: vec![Key::Ins],
            hide_ui_element: vec![Key::Char('h')],
            save_state: vec![Key::Ctrl('s')],
            new_board: vec![Key::Char('b')],
            new_card: vec![Key::Char('n')],
            delete_card: vec![Key::Char('d')],
            delete_board: vec![Key::Char('D')],
            change_card_status_to_completed: vec![Key::Char('1')],
            change_card_status_to_active: vec![Key::Char('2')],
            change_card_status_to_stale: vec![Key::Char('3')],
            reset_ui: vec![Key::Char('r')],
            go_to_main_menu: vec![Key::Char('m')],
            toggle_command_palette: vec![Key::Ctrl('p')],
            clear_all_toasts: vec![Key::Char('t')],
            undo: vec![Key::Ctrl('z')],
            redo: vec![Key::Ctrl('y')],
        };
        proof {
            assert(r.is_default()) by {
                assert forall|action: Action| #[trigger]
                    r.bound(action) == KeyBindings::default_keys(action) by {
                    assert(r.bound(action) =~= KeyBindings::default_keys(action));
                }
            }
            r.lemma_default_conflict_free();
        }
        r
    }
}

} // verus!
