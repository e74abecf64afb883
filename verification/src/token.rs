//! Token entries and the token index: a map from identifier keys to entries,
//! one entry per occurrence.

use crate::ident::{IdentKey, KeyView, Span};
use vstd::prelude::*;

verus! {

/// What kind of syntactic node an entry of the first pass was made from.
#[derive(Clone, Copy, Debug, PartialEq, Eq, Structural)]
pub enum AstToken {
    Declaration,
    Expression,
    FunctionDeclaration,
    FunctionParameter,
    StructField,
    EnumVariant,
    TraitFn,
    Reassignment,
    StorageField,
}

/// What kind of typed node an entry of the second pass was made from.
#[derive(Clone, Copy, Debug, PartialEq, Eq, Structural)]
pub enum TypedAstToken {
    TypedDeclaration,
    TypedExpression,
    TypedFunctionDeclaration,
    TypedFunctionParameter,
    TypedStructField,
    TypedEnumVariant,
    TypedTraitFn,
    TypedStorageField,
    TypeCheckedStorageReassignDescriptor,
    TypedReassignment,
}

/// One entry of the index. `node` is the span of the tree node that the
/// occurrence belongs to, by which that node is found again in its tree.
#[allow(inconsistent_fields)]
#[derive(Clone, Copy, Debug, PartialEq, Eq, Structural)]
pub enum TokenType {
    Token { kind: AstToken, node: Span },
    TypedToken { kind: TypedAstToken, node: Span },
}

impl TokenType {
    /// Whether the entry comes from the typed tree.
    pub fn is_typed(&self) -> (res: bool)
        ensures
            res == (*self is TypedToken),
    {
        match self {
            TokenType::Token { .. } => false,
            TokenType::TypedToken { .. } => true,
        }
    }

    /// The span of the node that the entry refers to.
    pub fn node(&self) -> (res: Span)
        ensures
            res == self.node_span(),
    {
        match self {
            TokenType::Token { node, .. } => *node,
            TokenType::TypedToken { node, .. } => *node,
        }
    }

    /// The span of the node that the entry refers to.
    pub open spec fn node_span(&self) -> Span {
        match *self {
            TokenType::Token { node, .. } => node,
            TokenType::TypedToken { node, .. } => node,
        }
    }
}

/// A key of the index together with its entry.
#[derive(Debug)]
pub struct Occurrence {
    pub key: IdentKey,
    pub token: TokenType,
}

impl Clone for Occurrence {
    fn clone(&self) -> (res: Self)
        ensures
            res == *self,
    {
        Occurrence { key: self.key.clone(), token: self.token }
    }
}

/// Whether offset `offset` of source `source_id` lies within `span`.
pub open spec fn span_covers(span: Span, source_id: u64, offset: usize) -> bool {
    span.source_id == source_id && span.start <= offset && offset < span.end
}

/// The index that results from `index` when the entries of `entries` are
/// inserted one after the other, first to last.
pub open spec fn insert_all(
    index: Map<KeyView, TokenType>,
    entries: Seq<(KeyView, TokenType)>,
) -> Map<KeyView, TokenType>
    decreases entries.len(),
{
    if entries.len() == 0 {
        index
    } else {
        insert_all(index, entries.drop_last()).insert(entries.last().0, entries.last().1)
    }
}

/// Inserting a list with one more entry is inserting the list, then the
/// entry.
pub proof fn lemma_insert_all_push(
    index: Map<KeyView, TokenType>,
    entries: Seq<(KeyView, TokenType)>,
    entry: (KeyView, TokenType),
)
    ensures
        insert_all(index, entries.push(entry)) == insert_all(index, entries).insert(
            entry.0,
            entry.1,
        ),
{
    assert(entries.push(entry).drop_last() =~= entries);
}

/// Inserting two lists one after the other is inserting their
/// concatenation.
pub proof fn lemma_insert_all_concat(
    index: Map<KeyView, TokenType>,
    first: Seq<(KeyView, TokenType)>,
    second: Seq<(KeyView, TokenType)>,
)
    ensures
        insert_all(index, first + second) == insert_all(insert_all(index, first), second),
    decreases second.len(),
{
    if second.len() == 0 {
        assert(first + second =~= first);
    } else {
        lemma_insert_all_concat(index, first, second.drop_last());
        assert((first + second).drop_last() =~= first + second.drop_last());
    }
}

/// Inserting after a first insert is inserting the list that begins with
/// that entry.
pub proof fn lemma_insert_all_first(
    index: Map<KeyView, TokenType>,
    entry: (KeyView, TokenType),
    rest: Seq<(KeyView, TokenType)>,
)
    ensures
        insert_all(index.insert(entry.0, entry.1), rest) == insert_all(index, seq![entry] + rest),
{
    lemma_insert_all_push(index, Seq::empty(), entry);
    assert(Seq::<(KeyView, TokenType)>::empty().push(entry) =~= seq![entry]);
    lemma_insert_all_concat(index, seq![entry], rest);
}

/// Every entry that was inserted has its key in the index.
pub proof fn lemma_inserted_key_is_present(
    index: Map<KeyView, TokenType>,
    entries: Seq<(KeyView, TokenType)>,
    i: int,
)
    requires
        0 <= i < entries.len(),
    ensures
        insert_all(index, entries).dom().contains(entries[i].0),
    decreases entries.len(),
{
    if i < entries.len() - 1 {
        lemma_inserted_key_is_present(index, entries.drop_last(), i);
    }
}

/// An entry that no later entry of the list shares its key with is the one
/// found under that key.
pub proof fn lemma_last_insert_wins(
    index: Map<KeyView, TokenType>,
    entries: Seq<(KeyView, TokenType)>,
    i: int,
)
    requires
        0 <= i < entries.len(),
        forall|j: int| i < j < entries.len() ==> (#[trigger] entries[j]).0 != entries[i].0,
    ensures
        insert_all(index, entries).dom().contains(entries[i].0),
        insert_all(index, entries)[entries[i].0] == entries[i].1,
    decreases entries.len(),
{
    if i < entries.len() - 1 {
        let shorter = entries.drop_last();
        assert forall|j: int| i < j < shorter.len() implies (#[trigger] shorter[j]).0
            != shorter[i].0 by {
            assert(shorter[j] == entries[j]);
        }
        lemma_last_insert_wins(index, shorter, i);
        assert(entries[entries.len() - 1].0 != entries[i].0);
    }
}

/// The entry found under the key of an inserted entry is that entry or a
/// later one of the list with the same key.
pub proof fn lemma_inserted_key_holds_an_inserted_entry(
    index: Map<KeyView, TokenType>,
    entries: Seq<(KeyView, TokenType)>,
    i: int,
)
    requires
        0 <= i < entries.len(),
    ensures
        exists|j: int|
            i <= j < entries.len() && (#[trigger] entries[j]).0 == entries[i].0 && insert_all(
                index,
                entries,
            )[entries[i].0] == entries[j].1,
    decreases entries.len(),
{
    let last = entries.len() - 1;
    if entries[last].0 == entries[i].0 {
        assert(insert_all(index, entries)[entries[i].0] == entries[last].1);
    } else {
        let shorter = entries.drop_last();
        lemma_inserted_key_holds_an_inserted_entry(index, shorter, i);
        let j = choose|j: int|
            i <= j < shorter.len() && (#[trigger] shorter[j]).0 == shorter[i].0 && insert_all(
                index,
                shorter,
            )[shorter[i].0] == shorter[j].1;
        assert(entries[j].0 == entries[i].0 && insert_all(index, entries)[entries[i].0]
            == entries[j].1);
    }
}

/// A key that no entry of the list bears is in the index after the inserts
/// exactly if it was before, with the entry it had.
pub proof fn lemma_other_keys_kept(
    index: Map<KeyView, TokenType>,
    entries: Seq<(KeyView, TokenType)>,
    key: KeyView,
)
    requires
        forall|i: int| 0 <= i < entries.len() ==> (#[trigger] entries[i]).0 != key,
    ensures
        insert_all(index, entries).dom().contains(key) == index.dom().contains(key),
        index.dom().contains(key) ==> insert_all(index, entries)[key] == index[key],
    decreases entries.len(),
{
    if entries.len() > 0 {
        let shorter = entries.drop_last();
        assert forall|i: int| 0 <= i < shorter.len() implies (#[trigger] shorter[i]).0 != key by {
            assert(shorter[i] == entries[i]);
        }
        lemma_other_keys_kept(index, shorter, key);
        assert(entries[entries.len() - 1].0 != key);
    }
}

/// Every key of the index after the inserts was in the index before or is
/// the key of an inserted entry.
pub proof fn lemma_no_other_keys(
    index: Map<KeyView, TokenType>,
    entries: Seq<(KeyView, TokenType)>,
    key: KeyView,
)
    requires
        insert_all(index, entries).dom().contains(key),
    ensures
        index.dom().contains(key) || exists|i: int|
            0 <= i < entries.len() && (#[trigger] entries[i]).0 == key,
    decreases entries.len(),
{
    if entries.len() > 0 {
        let shorter = entries.drop_last();
        if entries.last().0 == key {
            assert(entries[entries.len() - 1].0 == key);
        } else {
            lemma_no_other_keys(index, shorter, key);
            if !index.dom().contains(key) {
                let i = choose|i: int| 0 <= i < shorter.len() && (#[trigger] shorter[i]).0 == key;
                assert(entries[i].0 == key);
            }
        }
    }
}

/// The keys of a list of entries.
pub open spec fn keys_of(entries: Seq<(KeyView, TokenType)>) -> Set<KeyView> {
    Set::new(|key: KeyView| exists|i: int| 0 <= i < entries.len() && (#[trigger] entries[i]).0 == key)
}

/// The keys of the index after the inserts are those that it had and those
/// of the entries, and no others.
pub proof fn lemma_insert_all_keys(
    index: Map<KeyView, TokenType>,
    entries: Seq<(KeyView, TokenType)>,
)
    ensures
        insert_all(index, entries).dom() == index.dom().union(keys_of(entries)),
{
    let after = insert_all(index, entries).dom();
    let both = index.dom().union(keys_of(entries));
    assert forall|key: KeyView| after.contains(key) <==> both.contains(key) by {
        if after.contains(key) {
            lemma_no_other_keys(index, entries, key);
        }
        if keys_of(entries).contains(key) {
            let i = choose|i: int| 0 <= i < entries.len() && (#[trigger] entries[i]).0 == key;
            lemma_inserted_key_is_present(index, entries, i);
        } else {
            lemma_other_keys_kept(index, entries, key);
        }
    }
    assert(after =~= both);
}

/// Whether every entry of `entries` comes from the typed tree, if `typed`,
/// or every entry from the syntactic tree, if not.
pub open spec fn all_of_pass(entries: Seq<(KeyView, TokenType)>, typed: bool) -> bool {
    forall|i: int| 0 <= i < entries.len() ==> ((#[trigger] entries[i]).1 is TypedToken) == typed
}

/// Two lists of entries of one pass make a list of entries of that pass.
pub proof fn lemma_all_of_pass_concat(
    first: Seq<(KeyView, TokenType)>,
    second: Seq<(KeyView, TokenType)>,
    typed: bool,
)
    requires
        all_of_pass(first, typed),
        all_of_pass(second, typed),
    ensures
        all_of_pass(first + second, typed),
{
    assert forall|i: int| 0 <= i < (first + second).len() implies ((#[trigger] (first
        + second)[i]).1 is TypedToken) == typed by {
        if i < first.len() {
            assert((first + second)[i] == first[i]);
        } else {
            assert((first + second)[i] == second[i - first.len()]);
        }
    }
}

/// An index whose entries all come from one pass still has only entries of
/// that pass after entries of that pass are inserted.
pub proof fn lemma_insert_all_keeps_pass(
    index: Map<KeyView, TokenType>,
    entries: Seq<(KeyView, TokenType)>,
    typed: bool,
)
    requires
        forall|key: KeyView| index.dom().contains(key) ==> (#[trigger] index[key] is TypedToken)
            == typed,
        all_of_pass(entries, typed),
    ensures
        forall|key: KeyView|
            insert_all(index, entries).dom().contains(key) ==> (#[trigger] insert_all(
                index,
                entries,
            )[key] is TypedToken) == typed,
    decreases entries.len(),
{
    if entries.len() > 0 {
        let shorter = entries.drop_last();
        assert forall|i: int| 0 <= i < shorter.len() implies ((#[trigger] shorter[i]).1
            is TypedToken) == typed by {
            assert(shorter[i] == entries[i]);
        }
        lemma_insert_all_keeps_pass(index, shorter, typed);
        assert((entries[entries.len() - 1].1 is TypedToken) == typed);
    }
}

/// The token index. No key occurs twice; an insert under a key that is
/// present replaces its entry.
#[derive(Debug)]
pub struct TokenMap {
    entries: Vec<Occurrence>,
}

impl View for TokenMap {
    type V = Map<KeyView, TokenType>;

    closed spec fn view(&self) -> Map<KeyView, TokenType> {
        entries_map(self.entries@)
    }
}

/// The map that a list of occurrences with distinct keys stands for.
spec fn entries_map(entries: Seq<Occurrence>) -> Map<KeyView, TokenType> {
    Map::new(
        |k: KeyView| exists|i: int| 0 <= i < entries.len() && (#[trigger] entries[i]).key@ == k,
        |k: KeyView|
            entries[choose|i: int| 0 <= i < entries.len() && (#[trigger] entries[i]).key@ == k].token,
    )
}

spec fn distinct_keys(entries: Seq<Occurrence>) -> bool {
    forall|i: int, j: int|
        0 <= i < j < entries.len() ==> (#[trigger] entries[i]).key@ != (#[trigger] entries[j]).key@
}

proof fn lemma_entry_in_map(entries: Seq<Occurrence>, i: int)
    requires
        distinct_keys(entries),
        0 <= i < entries.len(),
    ensures
        entries_map(entries).dom().contains(entries[i].key@),
        entries_map(entries)[entries[i].key@] == entries[i].token,
{
    let k = entries[i].key@;
    let j = choose|j: int| 0 <= j < entries.len() && (#[trigger] entries[j]).key@ == k;
    assert(j == i) by {
        if j < i {
            assert(entries[j].key@ != entries[i].key@);
        } else if i < j {
            assert(entries[i].key@ != entries[j].key@);
        }
    }
}

proof fn lemma_absent_key(entries: Seq<Occurrence>, k: KeyView)
    requires
        forall|i: int| 0 <= i < entries.len() ==> (#[trigger] entries[i]).key@ != k,
    ensures
        !entries_map(entries).dom().contains(k),
{
}

proof fn lemma_entries_count(entries: Seq<Occurrence>)
    requires
        distinct_keys(entries),
    ensures
        entries_map(entries).dom().finite(),
        entries_map(entries).dom().len() == entries.len(),
    decreases entries.len(),
{
    if entries.len() == 0 {
        assert(entries_map(entries).dom() =~= Set::empty());
    } else {
        let shorter = entries.drop_last();
        let last = entries.last().key@;
        assert forall|i: int, j: int| 0 <= i < j < shorter.len() implies (#[trigger] shorter[i]).key@
            != (#[trigger] shorter[j]).key@ by {
            assert(shorter[i] == entries[i]);
            assert(shorter[j] == entries[j]);
        }
        lemma_entries_count(shorter);
        assert(!entries_map(shorter).dom().contains(last)) by {
            if entries_map(shorter).dom().contains(last) {
                let j = choose|j: int| 0 <= j < shorter.len() && (#[trigger] shorter[j]).key@ == last;
                assert(entries[j].key@ != entries[entries.len() - 1].key@);
            }
        }
        assert forall|k: KeyView|
            entries_map(entries).dom().contains(k) <==> entries_map(shorter).dom().insert(
                last,
            ).contains(k) by {
            if entries_map(entries).dom().contains(k) {
                let j = choose|j: int| 0 <= j < entries.len() && (#[trigger] entries[j]).key@ == k;
                if j < shorter.len() {
                    assert(shorter[j].key@ == k);
                }
            }
            if entries_map(shorter).dom().contains(k) {
                let j = choose|j: int| 0 <= j < shorter.len() && (#[trigger] shorter[j]).key@ == k;
                assert(entries[j].key@ == k);
            }
            if k == last {
                assert(entries[entries.len() - 1].key@ == k);
            }
        }
        assert(entries_map(entries).dom() =~= entries_map(shorter).dom().insert(last));
    }
}

fn position(entries: &Vec<Occurrence>, key: &IdentKey) -> (res: Option<usize>)
    ensures
        match res {
            Some(i) => i < entries@.len() && entries@[i as int].key@ == key@,
            None => forall|i: int| 0 <= i < entries@.len() ==> (#[trigger] entries@[i]).key@ != key@,
        },
{
    let mut i: usize = 0;
    while i < entries.len()
        invariant
            i <= entries@.len(),
            forall|j: int| 0 <= j < i ==> (#[trigger] entries@[j]).key@ != key@,
        decreases entries@.len() - i,
    {
        if entries[i].key.same(key) {
            return Some(i);
        }
        i += 1;
    }
    None
}

impl TokenMap {
    #[verifier::type_invariant]
    spec fn inv(&self) -> bool {
        distinct_keys(self.entries@)
    }

    /// The index without entries.
    pub fn new() -> (res: TokenMap)
        ensures
            res@ == Map::<KeyView, TokenType>::empty(),
    {
        let res = TokenMap { entries: Vec::new() };
        assert(res@ =~= Map::<KeyView, TokenType>::empty());
        res
    }

    /// Removes every entry.
    pub fn clear(&mut self)
        ensures
            final(self)@ == Map::<KeyView, TokenType>::empty(),
    {
        self.entries = Vec::new();
        assert(self@ =~= Map::<KeyView, TokenType>::empty());
    }

    /// Puts `token` under `key`, in place of the entry that `key` had, if any.
    pub fn insert(&mut self, key: IdentKey, token: TokenType)
        ensures
            final(self)@ == old(self)@.insert(key@, token),
    {
        proof {
            use_type_invariant(&*self);
        }
        let ghost before = self.entries@;
        let ghost k = key@;
        let mut entries: Vec<Occurrence> = Vec::new();
        core::mem::swap(&mut self.entries, &mut entries);
        match position(&entries, &key) {
            Some(i) => {
                entries.set(i, Occurrence { key, token });
                proof {
                    let after = entries@;
                    assert(distinct_keys(after)) by {
                        assert forall|a: int, b: int| 0 <= a < b < after.len() implies (
                        #[trigger] after[a]).key@ != (#[trigger] after[b]).key@ by {
                            assert(after[a].key@ == before[a].key@);
                            assert(after[b].key@ == before[b].key@);
                        }
                    }
                    assert forall|q: KeyView|
                        entries_map(after).dom().contains(q) <==> entries_map(before).insert(
                            k,
                            token,
                        ).dom().contains(q) by {
                        if entries_map(after).dom().contains(q) {
                            let j = choose|j: int|
                                0 <= j < after.len() && (#[trigger] after[j]).key@ == q;
                            assert(before[j].key@ == q);
                        }
                        if entries_map(before).dom().contains(q) {
                            let j = choose|j: int|
                                0 <= j < before.len() && (#[trigger] before[j]).key@ == q;
                            assert(after[j].key@ == q);
                        }
                        if q == k {
                            assert(after[i as int].key@ == q);
                        }
                    }
                    assert forall|q: KeyView| entries_map(after).dom().contains(q) implies (
                    #[trigger] entries_map(after)[q]) == entries_map(before).insert(k, token)[q] by {
                        let j = choose|j: int|
                            0 <= j < after.len() && (#[trigger] after[j]).key@ == q;
                        lemma_entry_in_map(after, j);
                        if j != i {
                            assert(before[j].key@ == q);
                            lemma_entry_in_map(before, j);
                            assert(before[j].key@ != before[i as int].key@);
                        }
                    }
                    assert(entries_map(after) =~= entries_map(before).insert(k, token));
                }
            },
            None => {
                entries.push(Occurrence { key, token });
                proof {
                    let after = entries@;
                    let n = before.len() as int;
                    assert(distinct_keys(after)) by {
                        assert forall|a: int, b: int| 0 <= a < b < after.len() implies (
                        #[trigger] after[a]).key@ != (#[trigger] after[b]).key@ by {
                            assert(after[a] == before[a]);
                            if b < n {
                                assert(after[b] == before[b]);
                            }
                        }
                    }
                    assert forall|q: KeyView|
                        entries_map(after).dom().contains(q) <==> entries_map(before).insert(
                            k,
                            token,
                        ).dom().contains(q) by {
                        if entries_map(after).dom().contains(q) {
                            let j = choose|j: int|
                                0 <= j < after.len() && (#[trigger] after[j]).key@ == q;
                            if j < n {
                                assert(before[j].key@ == q);
                            }
                        }
                        if entries_map(before).dom().contains(q) {
                            let j = choose|j: int|
                                0 <= j < before.len() && (#[trigger] before[j]).key@ == q;
                            assert(after[j].key@ == q);
                        }
                        if q == k {
                            assert(after[n].key@ == q);
                        }
                    }
                    assert forall|q: KeyView| entries_map(after).dom().contains(q) implies (
                    #[trigger] entries_map(after)[q]) == entries_map(before).insert(k, token)[q] by {
                        let j = choose|j: int|
                            0 <= j < after.len() && (#[trigger] after[j]).key@ == q;
                        lemma_entry_in_map(after, j);
                        if j < n {
                            assert(before[j] == after[j]);
                            lemma_entry_in_map(before, j);
                        }
                    }
                    assert(entries_map(after) =~= entries_map(before).insert(k, token));
                }
            },
        }
        self.entries = entries;
    }

    /// The entry under `key`, if there is one.
    pub fn get(&self, key: &IdentKey) -> (res: Option<TokenType>)
        ensures
            res == (if self@.dom().contains(key@) {
                Some(self@[key@])
            } else {
                None
            }),
    {
        proof {
            use_type_invariant(self);
        }
        match position(&self.entries, key) {
            Some(i) => {
                proof {
                    lemma_entry_in_map(self.entries@, i as int);
                }
                Some(self.entries[i].token)
            },
            None => {
                proof {
                    lemma_absent_key(self.entries@, key@);
                }
                None
            },
        }
    }

    /// Whether `key` has an entry.
    pub fn contains_key(&self, key: &IdentKey) -> (res: bool)
        ensures
            res == self@.dom().contains(key@),
    {
        self.get(key).is_some()
    }

    /// The number of entries.
    pub fn len(&self) -> (res: usize)
        ensures
            self@.dom().finite(),
            res == self@.dom().len(),
    {
        proof {
            use_type_invariant(self);
            lemma_entries_count(self.entries@);
        }
        self.entries.len()
    }

    /// Whether the index has no entry.
    pub fn is_empty(&self) -> (res: bool)
        ensures
            res == (self@ == Map::<KeyView, TokenType>::empty()),
    {
        proof {
            use_type_invariant(self);
            if self.entries@.len() > 0 {
                lemma_entry_in_map(self.entries@, 0);
            } else {
                assert(self@ =~= Map::<KeyView, TokenType>::empty());
            }
        }
        self.entries.len() == 0
    }

    /// An occurrence whose span covers offset `offset` of source
    /// `source_id`, if any key's span does.
    pub fn lookup(&self, source_id: u64, offset: usize) -> (res: Option<Occurrence>)
        ensures
            match res {
                Some(found) => self@.dom().contains(found.key@) && self@[found.key@] == found.token
                    && span_covers(found.key@.span, source_id, offset),
                None => forall|k: KeyView|
                    self@.dom().contains(k) ==> !span_covers(k.span, source_id, offset),
            },
    {
        proof {
            use_type_invariant(self);
        }
        let mut i: usize = 0;
        while i < self.entries.len()
            invariant
                i <= self.entries@.len(),
                distinct_keys(self.entries@),
                forall|j: int|
                    0 <= j < i ==> !span_covers(
                        (#[trigger] self.entries@[j]).key@.span,
                        source_id,
                        offset,
                    ),
            decreases self.entries@.len() - i,
        {
            let span = self.entries[i].key.span;
            if span.source_id == source_id && span.start <= offset && offset < span.end {
                proof {
                    lemma_entry_in_map(self.entries@, i as int);
                }
                return Some(self.entries[i].clone());
            }
            i += 1;
        }
        proof {
            assert forall|k: KeyView| self@.dom().contains(k) implies !span_covers(
                k.span,
                source_id,
                offset,
            ) by {
                let j = choose|j: int|
                    0 <= j < self.entries@.len() && (#[trigger] self.entries@[j]).key@ == k;
                assert(!span_covers(self.entries@[j].key@.span, source_id, offset));
            }
        }
        None
    }

    /// Every occurrence of `name`, each once: the entries whose key bears
    /// that name.
    pub fn all_occurrences(&self, name: &String) -> (res: Vec<Occurrence>)
        ensures
            forall|i: int|
                0 <= i < res@.len() ==> {
                    let found = #[trigger] res@[i];
                    found.key@.name == name@ && self@.dom().contains(found.key@) && self@[found.key@]
                        == found.token
                },
            forall|k: KeyView|
                self@.dom().contains(k) && k.name == name@ ==> exists|i: int|
                    0 <= i < res@.len() && (#[trigger] res@[i]).key@ == k,
            forall|i: int, j: int|
                0 <= i < j < res@.len() ==> (#[trigger] res@[i]).key@ != (#[trigger] res@[j]).key@,
    {
        proof {
            use_type_invariant(self);
        }
        let mut found: Vec<Occurrence> = Vec::new();
        let ghost mut origin: Seq<int> = Seq::empty();
        let mut i: usize = 0;
        while i < self.entries.len()
            invariant
                i <= self.entries@.len(),
                distinct_keys(self.entries@),
                origin.len() == found@.len(),
                forall|a: int|
                    0 <= a < found@.len() ==> 0 <= (#[trigger] origin[a]) < i && found@[a]
                        == self.entries@[origin[a]] && found@[a].key@.name == name@,
                forall|a: int, b: int|
                    0 <= a < b < found@.len() ==> (#[trigger] origin[a]) < (#[trigger] origin[b]),
                forall|j: int|
                    0 <= j < i && (#[trigger] self.entries@[j]).key@.name == name@ ==> exists|
                        a: int,
                    |
                        0 <= a < found@.len() && (#[trigger] found@[a]).key@ == self.entries@[j].key@,
            decreases self.entries@.len() - i,
        {
            if self.entries[i].key.name == *name {
                let ghost earlier = found@;
                found.push(self.entries[i].clone());
                proof {
                    origin = origin.push(i as int);
                    assert forall|j: int|
                        0 <= j < i + 1 && (#[trigger] self.entries@[j]).key@.name
                            == name@ implies exists|a: int|
                        0 <= a < found@.len() && (#[trigger] found@[a]).key@
                            == self.entries@[j].key@ by {
                        if j < i {
                            let a = choose|a: int|
                                0 <= a < earlier.len() && (#[trigger] earlier[a]).key@
                                    == self.entries@[j].key@;
                            assert(found@[a].key@ == self.entries@[j].key@);
                        } else {
                            assert(found@[found@.len() - 1].key@ == self.entries@[j].key@);
                        }
                    }
                }
            }
            i += 1;
        }
        proof {
            assert forall|a: int| 0 <= a < found@.len() implies {
                let f = #[trigger] found@[a];
                f.key@.name == name@ && self@.dom().contains(f.key@) && self@[f.key@] == f.token
            } by {
                lemma_entry_in_map(self.entries@, origin[a]);
            }
            assert forall|k: KeyView| self@.dom().contains(k) && k.name == name@ implies exists|
                a: int,
            |
                0 <= a < found@.len() && (#[trigger] found@[a]).key@ == k by {
                let j = choose|j: int|
                    0 <= j < self.entries@.len() && (#[trigger] self.entries@[j]).key@ == k;
                assert(self.entries@[j].key@.name == name@);
            }
            assert forall|a: int, b: int| 0 <= a < b < found@.len() implies (
            #[trigger] found@[a]).key@ != (#[trigger] found@[b]).key@ by {
                assert(origin[a] < origin[b]);
                assert(self.entries@[origin[a]].key@ != self.entries@[origin[b]].key@);
            }
        }
        found
    }
}

} // verus!
