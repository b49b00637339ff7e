use vstd::prelude::*;

use crate::ids::{UserId, ulid_text};
use crate::models::{UserFilter, UserFilterView};

verus! {

/// A user field that a query can restrict.
#[derive(Debug, Clone, Copy, PartialEq, Eq, Structural)]
pub enum QueryField {
    Id,
    Username,
    Email,
}

impl QueryField {
    /// The name of the field in the stored documents.
    pub open spec fn name_spec(self) -> Seq<char> {
        match self {
            QueryField::Id => "id"@,
            QueryField::Username => "username"@,
            QueryField::Email => "email"@,
        }
    }

    /// The name of the field in the stored documents.
    pub fn name(&self) -> (res: &'static str)
        ensures
            res@ == self.name_spec(),
    {
        match self {
            QueryField::Id => "id",
            QueryField::Username => "username",
            QueryField::Email => "email",
        }
    }
}

/// The three field names differ.
pub proof fn lemma_field_names_distinct()
    ensures
        QueryField::Id.name_spec() != QueryField::Username.name_spec(),
        QueryField::Id.name_spec() != QueryField::Email.name_spec(),
        QueryField::Username.name_spec() != QueryField::Email.name_spec(),
        forall|f: QueryField, g: QueryField| f.name_spec() == g.name_spec() ==> f == g,
{
    reveal_strlit("id");
    reveal_strlit("username");
    reveal_strlit("email");
    assert(QueryField::Id.name_spec()[0] != QueryField::Username.name_spec()[0]);
    assert(QueryField::Id.name_spec()[0] != QueryField::Email.name_spec()[0]);
    assert(QueryField::Username.name_spec()[0] != QueryField::Email.name_spec()[0]);
}

/// A BSON value, as far as the library reads it: an array of strings, a
/// document (its entries in key order), or any other value.
pub enum BsonView {
    Strings(Seq<Seq<char>>),
    Document(Seq<(Seq<char>, BsonView)>),
    Unmodelled,
}

/// One entry of a BSON document: its key and its value.
pub type EntryView = (Seq<char>, BsonView);

#[verifier::external_type_specification]
#[verifier::external_body]
pub struct ExDocument(mongodb::bson::Document);

/// The entries of a BSON document, in its key order.
pub uninterp spec fn document_entries(d: mongodb::bson::Document) -> Seq<EntryView>;

/// Whether some entry of `q` is on key `k`.
pub open spec fn has_key<V>(q: Seq<(Seq<char>, V)>, k: Seq<char>) -> bool {
    exists|i: int| 0 <= i < q.len() && (#[trigger] q[i]).0 == k
}

/// No two entries of `q` are on the same key.
pub open spec fn keys_unique<V>(q: Seq<(Seq<char>, V)>) -> bool {
    forall|i: int, j: int|
        0 <= i < q.len() && 0 <= j < q.len() && (#[trigger] q[i]).0 == (#[trigger] q[j]).0 ==> i == j
}

/// The position of the entry on key `k`, where there is one.
pub open spec fn key_position<V>(q: Seq<(Seq<char>, V)>, k: Seq<char>) -> int {
    choose|i: int| 0 <= i < q.len() && (#[trigger] q[i]).0 == k
}

/// Inserting key `k` with value `v` into a document: an entry already on
/// `k` has its value replaced where it stands; otherwise the entry is added
/// at the end.
pub open spec fn query_insert<V>(q: Seq<(Seq<char>, V)>, k: Seq<char>, v: V) -> Seq<(Seq<char>, V)> {
    if has_key(q, k) {
        q.update(key_position(q, k), (k, v))
    } else {
        q.push((k, v))
    }
}

/// The value at key `k`, if there is one.
pub open spec fn query_lookup<V>(q: Seq<(Seq<char>, V)>, k: Seq<char>) -> Option<V> {
    if has_key(q, k) {
        Some(q[key_position(q, k)].1)
    } else {
        None
    }
}

/// `mongodb::bson::Document::new`: a document with no entries.
#[verifier::external_body]
fn document_new() -> (d: mongodb::bson::Document)
    ensures
        document_entries(d) == Seq::<EntryView>::empty(),
{
    mongodb::bson::Document::new()
}

/// `mongodb::bson::Document::insert` of an array of strings at `key`. The
/// document is an `IndexMap`: an existing key keeps its place and gets the
/// new value, a new key is appended.
#[verifier::external_body]
fn document_insert_strings(d: &mut mongodb::bson::Document, key: &str, values: Vec<String>)
    ensures
        document_entries(*final(d)) == query_insert(
            document_entries(*old(d)),
            key@,
            BsonView::Strings(values.deep_view()),
        ),
{
    d.insert(key, values);
}

/// `mongodb::bson::Document::insert` of a sub-document at `key`, with the
/// same placement as above.
#[verifier::external_body]
fn document_insert_document(
    d: &mut mongodb::bson::Document,
    key: &str,
    value: mongodb::bson::Document,
)
    ensures
        document_entries(*final(d)) == query_insert(
            document_entries(*old(d)),
            key@,
            BsonView::Document(document_entries(value)),
        ),
{
    d.insert(key, value);
}

/// The MongoDB operator by which a condition admits a list of values.
pub open spec fn in_operator() -> Seq<char> {
    "$in"@
}

/// The condition that a field holds one of `values`: `{ "$in": values }`.
pub open spec fn in_condition(values: Seq<Seq<char>>) -> BsonView {
    BsonView::Document(seq![(in_operator(), BsonView::Strings(values))])
}

/// The condition for optional values, where there are some.
pub open spec fn condition_for(values: Option<Seq<Seq<char>>>) -> Option<BsonView> {
    match values {
        Some(v) => Some(in_condition(v)),
        None => None,
    }
}

/// The values that a filter sets for field `f`; identifiers in their text form.
pub open spec fn filter_values(flt: UserFilterView, f: QueryField) -> Option<Seq<Seq<char>>> {
    match f {
        QueryField::Id => match flt.id {
            Some(ids) => Some(ids.map_values(|b: u128| ulid_text(b))),
            None => None,
        },
        QueryField::Username => flt.username,
        QueryField::Email => flt.email,
    }
}

/// Sets field `f` to the condition of the filter's values for it, if any.
pub open spec fn insert_if_set(q: Seq<EntryView>, flt: UserFilterView, f: QueryField) -> Seq<
    EntryView,
> {
    match filter_values(flt, f) {
        Some(v) => query_insert(q, f.name_spec(), in_condition(v)),
        None => q,
    }
}

/// Applies one filter: its identifiers, then its usernames, then its emails.
pub open spec fn apply_filter(q: Seq<EntryView>, flt: UserFilterView) -> Seq<EntryView> {
    let q1 = insert_if_set(q, flt, QueryField::Id);
    let q2 = insert_if_set(q1, flt, QueryField::Username);
    insert_if_set(q2, flt, QueryField::Email)
}

/// The `$in` condition on a list of values, written out:
/// `{ "$in": values }`.
pub open spec fn in_list(values: Seq<Seq<char>>) -> BsonView {
    BsonView::Document(seq![("$in"@, BsonView::Strings(values))])
}

/// Applying one filter to a query: where the filter gives identifiers
/// `[a1, ..., an]`, the `id` key holds `{ "$in": [text(a1), ..., text(an)] }`
/// (every identifier, in order); where it gives usernames, the `username`
/// key holds `{ "$in": usernames }`; where it gives emails, the `email` key
/// holds `{ "$in": emails }`; each whatever the filter's other fields are.
/// A field the filter leaves out keeps its condition, no other key changes,
/// and keys stay unique.
pub proof fn lemma_apply_filter_fields(q: Seq<EntryView>, flt: UserFilterView)
    requires
        keys_unique(q),
    ensures
        keys_unique(apply_filter(q, flt)),
        query_lookup(apply_filter(q, flt), "id"@) == match flt.id {
            Some(ids) => Some(in_list(Seq::new(ids.len(), |i: int| ulid_text(ids[i])))),
            None => query_lookup(q, "id"@),
        },
        query_lookup(apply_filter(q, flt), "username"@) == match flt.username {
            Some(names) => Some(in_list(names)),
            None => query_lookup(q, "username"@),
        },
        query_lookup(apply_filter(q, flt), "email"@) == match flt.email {
            Some(emails) => Some(in_list(emails)),
            None => query_lookup(q, "email"@),
        },
        forall|k: Seq<char>|
            k != "id"@ && k != "username"@ && k != "email"@ ==> #[trigger] query_lookup(
                apply_filter(q, flt),
                k,
            ) == query_lookup(q, k),
{
    lemma_field_names_distinct();
    let q1 = insert_if_set(q, flt, QueryField::Id);
    lemma_insert_if_set(q, flt, QueryField::Id);
    let q2 = insert_if_set(q1, flt, QueryField::Username);
    lemma_insert_if_set(q1, flt, QueryField::Username);
    lemma_insert_if_set(q2, flt, QueryField::Email);
    if let Some(ids) = flt.id {
        assert(ids.map_values(|b: u128| ulid_text(b)) =~= Seq::new(
            ids.len(),
            |i: int| ulid_text(ids[i]),
        ));
    }
}

/// The query for a single filter restricts exactly the fields the filter
/// gives: `id` to the texts of all its identifiers, in order, `username` to
/// its usernames and `email` to its emails, each as an `$in` list; no other
/// key appears.
pub proof fn lemma_single_filter_query(flt: UserFilterView)
    ensures
        query_lookup(query_for(Some(seq![flt])), "id"@) == match flt.id {
            Some(ids) => Some(in_list(Seq::new(ids.len(), |i: int| ulid_text(ids[i])))),
            None => None,
        },
        query_lookup(query_for(Some(seq![flt])), "username"@) == match flt.username {
            Some(names) => Some(in_list(names)),
            None => None,
        },
        query_lookup(query_for(Some(seq![flt])), "email"@) == match flt.email {
            Some(emails) => Some(in_list(emails)),
            None => None,
        },
        forall|k: Seq<char>|
            k != "id"@ && k != "username"@ && k != "email"@ ==> #[trigger] query_lookup(
                query_for(Some(seq![flt])),
                k,
            ) is None,
{
    let fs = seq![flt];
    assert(fs.drop_last() =~= Seq::<UserFilterView>::empty());
    assert(fs.last() == flt);
    assert(apply_filters(fs.drop_last()) == Seq::<EntryView>::empty());
    assert(apply_filters(fs) == apply_filter(Seq::<EntryView>::empty(), flt));
    lemma_apply_filter_fields(Seq::<EntryView>::empty(), flt);
}

/// The query document built from a list of filters, applied in order.
pub open spec fn apply_filters(fs: Seq<UserFilterView>) -> Seq<EntryView>
    decreases fs.len(),
{
    if fs.len() == 0 {
        Seq::empty()
    } else {
        apply_filter(apply_filters(fs.drop_last()), fs.last())
    }
}

/// The values that the last filter setting field `f` gives it.
pub open spec fn last_setting(fs: Seq<UserFilterView>, f: QueryField) -> Option<Seq<Seq<char>>>
    decreases fs.len(),
{
    if fs.len() == 0 {
        None
    } else {
        match filter_values(fs.last(), f) {
            Some(v) => Some(v),
            None => last_setting(fs.drop_last(), f),
        }
    }
}

/// The abstract value of an optional list of filters.
pub open spec fn filters_view(filters: Option<Vec<UserFilter>>) -> Option<Seq<UserFilterView>> {
    match filters {
        Some(fs) => Some(fs@.map_values(|f: UserFilter| f@)),
        None => None,
    }
}

/// The query document for an optional list of filters.
pub open spec fn query_for(filters: Option<Seq<UserFilterView>>) -> Seq<EntryView> {
    match filters {
        Some(fs) => apply_filters(fs),
        None => Seq::empty(),
    }
}

/// Inserting key `k` leaves the lookup of every other key as it was.
proof fn lemma_other_keys_kept<V>(q: Seq<(Seq<char>, V)>, k: Seq<char>, v: V, g: Seq<char>)
    requires
        keys_unique(q),
        keys_unique(query_insert(q, k, v)),
        g != k,
    ensures
        query_lookup(query_insert(q, k, v), g) == query_lookup(q, g),
{
    let r = query_insert(q, k, v);
    if has_key(q, g) {
        let pg = key_position(q, g);
        assert(r[pg].0 == g);
        assert(has_key(r, g));
        assert(key_position(r, g) == pg);
    } else if has_key(r, g) {
        let p = key_position(r, g);
        assert(q[p].0 == g);
    }
}

/// Inserting a key keeps keys unique, makes the key hold the new values,
/// and leaves every other key as it was.
pub proof fn lemma_query_insert<V>(q: Seq<(Seq<char>, V)>, k: Seq<char>, v: V)
    requires
        keys_unique(q),
    ensures
        keys_unique(query_insert(q, k, v)),
        query_lookup(query_insert(q, k, v), k) == Some(v),
        forall|g: Seq<char>| g != k ==> query_lookup(query_insert(q, k, v), g) == query_lookup(q, g),
{
    let r = query_insert(q, k, v);
    let p = if has_key(q, k) { key_position(q, k) } else { q.len() as int };
    assert(r[p].0 == k);
    assert(has_key(r, k));
    assert(key_position(r, k) == p);
    assert forall|g: Seq<char>| g != k implies query_lookup(r, g) == query_lookup(q, g) by {
        lemma_other_keys_kept(q, k, v, g);
    }
}

/// Setting a field when the filter holds values for it: as
/// `lemma_query_insert`, and a no-op otherwise.
proof fn lemma_insert_if_set(q: Seq<EntryView>, flt: UserFilterView, f: QueryField)
    requires
        keys_unique(q),
    ensures
        keys_unique(insert_if_set(q, flt, f)),
        forall|g: Seq<char>| #[trigger] query_lookup(insert_if_set(q, flt, f), g) == if g
            == f.name_spec() && filter_values(flt, f) is Some {
            condition_for(filter_values(flt, f))
        } else {
            query_lookup(q, g)
        },
{
    if let Some(v) = filter_values(flt, f) {
        lemma_query_insert(q, f.name_spec(), in_condition(v));
    }
}

/// The query built from a list of filters restricts each field at most
/// once; a field holds the condition on the values that the last filter
/// setting it gives,
/// fields that no filter sets are not restricted, and no other key appears.
pub proof fn lemma_apply_filters(fs: Seq<UserFilterView>)
    ensures
        keys_unique(apply_filters(fs)),
        forall|f: QueryField| #[trigger] query_lookup(apply_filters(fs), f.name_spec()) == condition_for(last_setting(fs, f)),
        forall|k: Seq<char>|
            (forall|f: QueryField| k != #[trigger] f.name_spec()) ==> query_lookup(apply_filters(fs), k) is None,
    decreases fs.len(),
{
    lemma_field_names_distinct();
    if fs.len() > 0 {
        let prev = fs.drop_last();
        let flt = fs.last();
        lemma_apply_filters(prev);
        let q0 = apply_filters(prev);
        let q1 = insert_if_set(q0, flt, QueryField::Id);
        lemma_insert_if_set(q0, flt, QueryField::Id);
        let q2 = insert_if_set(q1, flt, QueryField::Username);
        lemma_insert_if_set(q1, flt, QueryField::Username);
        lemma_insert_if_set(q2, flt, QueryField::Email);
        assert forall|f: QueryField| #[trigger] query_lookup(apply_filters(fs), f.name_spec()) == condition_for(last_setting(fs, f)) by {
            assert(query_lookup(q0, f.name_spec()) == condition_for(last_setting(prev, f)));
            match f {
                QueryField::Id => {},
                QueryField::Username => {},
                QueryField::Email => {},
            }
        }
        assert forall|k: Seq<char>|
            (forall|f: QueryField| k != #[trigger] f.name_spec()) implies query_lookup(apply_filters(fs), k) is None by {
            assert(k != QueryField::Id.name_spec());
            assert(k != QueryField::Username.name_spec());
            assert(k != QueryField::Email.name_spec());
            assert(query_lookup(q0, k) is None);
        }
    }
}

/// A query document on users: `{ field: { "$in": values }, ... }`, at most
/// one condition per field, in the order in which the fields were first set.
#[derive(Debug)]
pub struct UserQuery {
    doc: mongodb::bson::Document,
}

impl View for UserQuery {
    type V = Seq<EntryView>;

    closed spec fn view(&self) -> Seq<EntryView> {
        document_entries(self.doc)
    }
}

/// The text forms of a list of identifiers.
pub open spec fn id_texts(ids: Seq<UserId>) -> Seq<Seq<char>> {
    ids.map_values(|u: UserId| ulid_text(u.bits))
}

/// The text forms of identifiers, in order.
fn id_strings(ids: &Vec<UserId>) -> (res: Vec<String>)
    ensures
        res.deep_view() == id_texts(ids@),
{
    let mut res: Vec<String> = Vec::new();
    let n = ids.len();
    for i in 0..n
        invariant
            n == ids@.len(),
            res@.len() == i,
            forall|j: int| 0 <= j < i ==> (#[trigger] res@[j])@ == ulid_text(ids@[j].bits),
    {
        let text = ids[i].to_text();
        res.push(text);
    }
    assert(res.deep_view() =~= id_texts(ids@));
    res
}

/// A copy of a list of strings.
fn copy_strings(v: &Vec<String>) -> (res: Vec<String>)
    ensures
        res.deep_view() == v.deep_view(),
{
    let mut res: Vec<String> = Vec::new();
    let n = v.len();
    for i in 0..n
        invariant
            n == v@.len(),
            res@.len() == i,
            forall|j: int| 0 <= j < i ==> (#[trigger] res@[j])@ == v@[j]@,
    {
        res.push(v[i].clone());
    }
    assert(res.deep_view() =~= v.deep_view());
    res
}

impl UserQuery {
    /// The query holds at most one condition per field.
    pub open spec fn wf(&self) -> bool {
        keys_unique(self@)
    }

    /// The empty query, which matches every user.
    pub fn new() -> (q: UserQuery)
        ensures
            q@ == Seq::<EntryView>::empty(),
            q.wf(),
    {
        UserQuery { doc: document_new() }
    }

    /// The query as a BSON document.
    pub fn document(&self) -> (res: &mongodb::bson::Document)
        ensures
            document_entries(*res) == self@,
    {
        &self.doc
    }

    /// Restricts `field` to `values`, with the condition
    /// `{ "$in": values }`: a condition already on the field is replaced
    /// where it stands; otherwise it is appended.
    pub fn insert(&mut self, field: QueryField, values: Vec<String>)
        requires
            old(self).wf(),
        ensures
            final(self).wf(),
            final(self)@ == query_insert(
                old(self)@,
                field.name_spec(),
                in_condition(values.deep_view()),
            ),
    {
        let ghost v = values.deep_view();
        proof {
            lemma_query_insert(self@, field.name_spec(), in_condition(v));
        }
        let mut condition = document_new();
        document_insert_strings(&mut condition, "$in", values);
        assert(document_entries(condition) =~= seq![(in_operator(), BsonView::Strings(v))]);
        document_insert_document(&mut self.doc, field.name(), condition);
    }

    /// Restricts `field` to `values` when they are present.
    fn insert_if_present(&mut self, field: QueryField, values: Option<Vec<String>>)
        requires
            old(self).wf(),
        ensures
            final(self).wf(),
            final(self)@ == match values {
                Some(v) => query_insert(old(self)@, field.name_spec(), in_condition(v.deep_view())),
                None => old(self)@,
            },
    {
        match values {
            Some(v) => self.insert(field, v),
            None => {},
        }
    }

    /// Applies one filter: its identifiers (in text form), then its
    /// usernames, then its emails.
    pub fn apply_filter(&mut self, filter: &UserFilter)
        requires
            old(self).wf(),
        ensures
            final(self).wf(),
            final(self)@ == apply_filter(old(self)@, filter@),
            query_lookup(final(self)@, "id"@) == match filter.id {
                Some(ids) => Some(in_list(Seq::new(ids@.len(), |i: int| ulid_text(ids@[i].bits)))),
                None => query_lookup(old(self)@, "id"@),
            },
            query_lookup(final(self)@, "username"@) == match filter.username {
                Some(names) => Some(in_list(names.deep_view())),
                None => query_lookup(old(self)@, "username"@),
            },
            query_lookup(final(self)@, "email"@) == match filter.email {
                Some(emails) => Some(in_list(emails.deep_view())),
                None => query_lookup(old(self)@, "email"@),
            },
    {
        proof {
            lemma_apply_filter_fields(self@, filter@);
            if let Some(ids) = &filter.id {
                let bits = ids@.map_values(|u: UserId| u.bits);
                assert(Seq::new(bits.len(), |i: int| ulid_text(bits[i])) =~= Seq::new(
                    ids@.len(),
                    |i: int| ulid_text(ids@[i].bits),
                ));
            }
        }
        let ids = match &filter.id {
            Some(ids) => Some(id_strings(ids)),
            None => None,
        };
        proof {
            if let Some(list) = &filter.id {
                assert(id_texts(list@) =~= list@.map_values(|u: UserId| u.bits).map_values(
                    |b: u128| ulid_text(b),
                ));
            }
        }
        self.insert_if_present(QueryField::Id, ids);
        let names = match &filter.username {
            Some(names) => Some(copy_strings(names)),
            None => None,
        };
        self.insert_if_present(QueryField::Username, names);
        let emails = match &filter.email {
            Some(emails) => Some(copy_strings(emails)),
            None => None,
        };
        self.insert_if_present(QueryField::Email, emails);
    }

    /// The query for an optional list of filters, applied in order; no
    /// filters give the empty query.
    pub fn from_filters(filters: &Option<Vec<UserFilter>>) -> (q: UserQuery)
        ensures
            q.wf(),
            q@ == query_for(filters_view(*filters)),
    {
        let mut q = UserQuery::new();
        match filters {
            Some(fs) => {
                let n = fs.len();
                let ghost views = fs@.map_values(|f: UserFilter| f@);
                assert(views.take(0) =~= Seq::<UserFilterView>::empty());
                for i in 0..n
                    invariant
                        n == fs@.len(),
                        views == fs@.map_values(|f: UserFilter| f@),
                        q.wf(),
                        q@ == apply_filters(views.take(i as int)),
                {
                    q.apply_filter(&fs[i]);
                    assert(views.take(i + 1).drop_last() =~= views.take(i as int));
                }
                assert(views.take(n as int) =~= views);
            },
            None => {},
        }
        q
    }
}

} // verus!
