use vstd::prelude::*;
use crate::text::{owned, same_text};

verus! {

broadcast use vstd::string::group_string_axioms;

/// A JSON document as the library reads it: numbers are kept as their JSON
/// text, objects as their members in order.
#[derive(Debug, PartialEq, Eq)]
pub enum JsonValue {
    Null,
    Bool(bool),
    Number(String),
    Text(String),
    Array(Vec<JsonValue>),
    Object(Vec<(String, JsonValue)>),
}

/// The value of the first member named `key`.
pub open spec fn member(fields: Seq<(String, JsonValue)>, key: Seq<char>) -> Option<JsonValue>
    decreases fields.len(),
{
    if fields.len() == 0 {
        None
    } else if fields[0].0@ == key {
        Some(fields[0].1)
    } else {
        member(fields.drop_first(), key)
    }
}

/// Whether a value can take members: an object, or null (which becomes an
/// empty object).
pub open spec fn takes_members(v: JsonValue) -> bool {
    v is Object || v is Null
}

/// The members of an object; none for any other value.
pub open spec fn members(v: JsonValue) -> Seq<(String, JsonValue)> {
    match v {
        JsonValue::Object(fields) => fields@,
        _ => Seq::empty(),
    }
}

/// The member `key` of an object, null when it is absent.
pub open spec fn member_or_null(v: JsonValue, key: Seq<char>) -> JsonValue {
    match member(members(v), key) {
        Some(x) => x,
        None => JsonValue::Null,
    }
}

/// Whether a profile manifest can be normalized: it, its `dsh` member and
/// that member's `profile` member are each an object, null or absent.
pub open spec fn manifest_accepted(doc: JsonValue) -> bool {
    &&& takes_members(doc)
    &&& takes_members(member_or_null(doc, "dsh"@))
    &&& takes_members(member_or_null(member_or_null(doc, "dsh"@), "profile"@))
}

/// The bundles that the web profile loads.
pub open spec fn profile_bundles() -> Seq<Seq<char>> {
    seq!["@deepseek-ai/dsh-base"@, "@deepseek-ai/dsh-web-app"@, "@linxin666/dsh-web-ui-all"@]
}

/// Whether a value is the list of the profile's bundles.
pub open spec fn is_bundle_list(v: JsonValue) -> bool {
    match v {
        JsonValue::Array(items) => items@.len() == profile_bundles().len() && forall|i: int|
            0 <= i < items@.len() ==> (#[trigger] items@[i] matches JsonValue::Text(t) && t@
                == profile_bundles()[i]),
        _ => false,
    }
}

/// Whether `after` holds the members of `before` other than `keys`,
/// unchanged.
pub open spec fn keeps_other_members(
    before: Seq<(String, JsonValue)>,
    after: Seq<(String, JsonValue)>,
    keys: Seq<Seq<char>>,
) -> bool {
    forall|k: Seq<char>| !keys.contains(k) ==> member(after, k) == #[trigger] member(before, k)
}

fn find_member(fields: &Vec<(String, JsonValue)>, key: &str) -> (r: Option<usize>)
    ensures
        match r {
            Some(i) => i < fields@.len() && fields@[i as int].0@ == key@ && forall|j: int|
                0 <= j < i ==> fields@[j].0@ != key@,
            None => forall|j: int| 0 <= j < fields@.len() ==> fields@[j].0@ != key@,
        },
{
    let mut i: usize = 0;
    while i < fields.len()
        invariant
            i <= fields@.len(),
            forall|j: int| 0 <= j < i ==> fields@[j].0@ != key@,
        decreases fields.len() - i,
    {
        if same_text(fields[i].0.as_str(), key) {
            return Some(i);
        }
        i = i + 1;
    }
    None
}

proof fn lemma_member_at(fields: Seq<(String, JsonValue)>, key: Seq<char>, i: int)
    requires
        0 <= i < fields.len(),
        fields[i].0@ == key,
        forall|j: int| 0 <= j < i ==> fields[j].0@ != key,
    ensures
        member(fields, key) == Some(fields[i].1),
    decreases i,
{
    if i > 0 {
        lemma_member_at(fields.drop_first(), key, i - 1);
    }
}

proof fn lemma_member_absent(fields: Seq<(String, JsonValue)>, key: Seq<char>)
    requires
        forall|j: int| 0 <= j < fields.len() ==> fields[j].0@ != key,
    ensures
        member(fields, key) is None,
    decreases fields.len(),
{
    if fields.len() > 0 {
        lemma_member_absent(fields.drop_first(), key);
    }
}

proof fn lemma_member_update(
    fields: Seq<(String, JsonValue)>,
    i: int,
    entry: (String, JsonValue),
    k: Seq<char>,
)
    requires
        0 <= i < fields.len(),
        entry.0@ == fields[i].0@,
    ensures
        k == entry.0@ && (forall|j: int| 0 <= j < i ==> fields[j].0@ != k) ==> member(
            fields.update(i, entry),
            k,
        ) == Some(entry.1),
        k != entry.0@ ==> member(fields.update(i, entry), k) == member(fields, k),
    decreases i,
{
    if i > 0 {
        lemma_member_update(fields.drop_first(), i - 1, entry, k);
        assert(fields.update(i, entry).drop_first() =~= fields.drop_first().update(i - 1, entry));
    } else {
        assert(fields.update(i, entry).drop_first() =~= fields.drop_first());
    }
}

proof fn lemma_member_push(fields: Seq<(String, JsonValue)>, entry: (String, JsonValue), k: Seq<
    char,
>)
    requires
        forall|j: int| 0 <= j < fields.len() ==> fields[j].0@ != entry.0@,
    ensures
        k == entry.0@ ==> member(fields.push(entry), k) == Some(entry.1),
        k != entry.0@ ==> member(fields.push(entry), k) == member(fields, k),
    decreases fields.len(),
{
    if fields.len() > 0 {
        lemma_member_push(fields.drop_first(), entry, k);
        assert(fields.push(entry).drop_first() =~= fields.drop_first().push(entry));
    } else {
        assert(fields.push(entry).drop_first() =~= fields);
    }
}

/// The names of an object's members, in order.
pub open spec fn names(fields: Seq<(String, JsonValue)>) -> Seq<Seq<char>> {
    fields.map_values(|m: (String, JsonValue)| m.0@)
}

/// The names after setting the member `key`: unchanged when a member of
/// that name exists, else with `key` added at the end.
pub open spec fn with_name(ns: Seq<Seq<char>>, key: Seq<char>) -> Seq<Seq<char>> {
    if ns.contains(key) {
        ns
    } else {
        ns.push(key)
    }
}

/// The names after setting the members `keys`, one after another.
pub open spec fn with_names(ns: Seq<Seq<char>>, keys: Seq<Seq<char>>) -> Seq<Seq<char>>
    decreases keys.len(),
{
    if keys.len() == 0 {
        ns
    } else {
        with_names(with_name(ns, keys[0]), keys.drop_first())
    }
}

/// Whether the member at `j` is the first of its name.
pub open spec fn first_of_name(fields: Seq<(String, JsonValue)>, j: int) -> bool {
    forall|i: int| 0 <= i < j ==> fields[i].0@ != fields[j].0@
}

/// Whether `after` is `before` with the members `keys` set, and nothing
/// else changed: each key's first member is set where it stands, a key
/// without a member is added at the end (in the order of `keys`), and every
/// other member stays as it was, at its place.
pub open spec fn sets_members(
    before: Seq<(String, JsonValue)>,
    after: Seq<(String, JsonValue)>,
    keys: Seq<Seq<char>>,
) -> bool {
    &&& names(after) == with_names(names(before), keys)
    &&& forall|j: int|
        0 <= j < before.len() && !(keys.contains(before[j].0@) && first_of_name(before, j))
            ==> #[trigger] after[j] == before[j]
}

proof fn lemma_with_names_prefix(ns: Seq<Seq<char>>, keys: Seq<Seq<char>>)
    ensures
        with_names(ns, keys).len() >= ns.len(),
        forall|i: int| 0 <= i < ns.len() ==> #[trigger] with_names(ns, keys)[i] == ns[i],
    decreases keys.len(),
{
    if keys.len() > 0 {
        lemma_with_names_prefix(with_name(ns, keys[0]), keys.drop_first());
    }
}

proof fn lemma_with_names_append(ns: Seq<Seq<char>>, k1: Seq<Seq<char>>, k2: Seq<Seq<char>>)
    ensures
        with_names(with_names(ns, k1), k2) == with_names(ns, k1 + k2),
    decreases k1.len(),
{
    if k1.len() == 0 {
        assert(k1 + k2 =~= k2);
    } else {
        lemma_with_names_append(with_name(ns, k1[0]), k1.drop_first(), k2);
        assert((k1 + k2).drop_first() =~= k1.drop_first() + k2);
        assert((k1 + k2)[0] == k1[0]);
    }
}

proof fn lemma_with_names_present(ns: Seq<Seq<char>>, keys: Seq<Seq<char>>)
    requires
        forall|i: int| 0 <= i < keys.len() ==> ns.contains(#[trigger] keys[i]),
    ensures
        with_names(ns, keys) == ns,
    decreases keys.len(),
{
    if keys.len() > 0 {
        assert(ns.contains(keys[0]));
        assert forall|i: int| 0 <= i < keys.drop_first().len() implies ns.contains(
            #[trigger] keys.drop_first()[i],
        ) by {
            assert(keys.drop_first()[i] == keys[i + 1]);
        }
        lemma_with_names_present(ns, keys.drop_first());
    }
}

/// Setting members in two rounds sets the members of both.
proof fn lemma_sets_compose(
    a: Seq<(String, JsonValue)>,
    b: Seq<(String, JsonValue)>,
    c: Seq<(String, JsonValue)>,
    k1: Seq<Seq<char>>,
    k2: Seq<Seq<char>>,
)
    requires
        sets_members(a, b, k1),
        sets_members(b, c, k2),
    ensures
        sets_members(a, c, k1 + k2),
{
    lemma_with_names_append(names(a), k1, k2);
    lemma_with_names_prefix(names(a), k1);
    assert(b.len() == names(b).len());
    assert forall|j: int|
        0 <= j < a.len() && !((k1 + k2).contains(a[j].0@) && first_of_name(a, j)) implies #[trigger] c[j]
        == a[j] by {
        assert forall|i: int| 0 <= i < a.len() implies b[i].0@ == a[i].0@ by {
            assert(names(b)[i] == names(a)[i]);
        }
        if k1.contains(a[j].0@) {
            let x = choose|x: int| 0 <= x < k1.len() && k1[x] == a[j].0@;
            assert((k1 + k2)[x] == a[j].0@);
        }
        assert(b[j] == a[j]);
        if k2.contains(b[j].0@) && first_of_name(b, j) {
            let x = choose|x: int| 0 <= x < k2.len() && k2[x] == a[j].0@;
            assert((k1 + k2)[k1.len() + x] == a[j].0@);
            assert(first_of_name(a, j));
        }
    }
}

/// Setting the same member twice sets it once.
proof fn lemma_sets_twice(
    a: Seq<(String, JsonValue)>,
    b: Seq<(String, JsonValue)>,
    c: Seq<(String, JsonValue)>,
    key: Seq<char>,
)
    requires
        sets_members(a, b, seq![key]),
        sets_members(b, c, seq![key]),
    ensures
        sets_members(a, c, seq![key]),
{
    lemma_sets_compose(a, b, c, seq![key], seq![key]);
    let kk = seq![key] + seq![key];
    assert(kk =~= seq![key, key]);
    assert(with_names(names(a), kk) == with_name(with_name(names(a), key), key)) by {
        reveal_with_fuel(with_names, 3);
        assert(kk.drop_first() =~= seq![key]);
        assert(kk.drop_first().drop_first() =~= Seq::<Seq<char>>::empty());
    }
    assert(with_names(names(a), seq![key]) == with_name(names(a), key)) by {
        reveal_with_fuel(with_names, 2);
        assert(seq![key].drop_first() =~= Seq::<Seq<char>>::empty());
    }
    assert(with_name(names(a), key).contains(key)) by {
        if !names(a).contains(key) {
            assert(names(a).push(key)[names(a).len() as int] == key);
        }
    }
    assert forall|j: int|
        0 <= j < a.len() && !(seq![key].contains(a[j].0@) && first_of_name(a, j)) implies #[trigger] c[j]
        == a[j] by {
        if kk.contains(a[j].0@) {
            let x = choose|x: int| 0 <= x < kk.len() && kk[x] == a[j].0@;
            assert(seq![key][0] == a[j].0@);
        }
    }
}

/// Sets the member `key` (replacing the first member of that name, else
/// adding it at the end).
fn set_member(fields: &mut Vec<(String, JsonValue)>, key: &str, value: JsonValue)
    ensures
        sets_members(old(fields)@, final(fields)@, seq![key@]),
        member(final(fields)@, key@) == Some(value),
        forall|k: Seq<char>|
            k != key@ ==> #[trigger] member(final(fields)@, k) == member(old(fields)@, k),
{
    let ghost before = fields@;
    match find_member(fields, key) {
        Some(i) => {
            let name = owned(key);
            let ghost entry = (name, value);
            fields.set(i, (name, value));
            proof {
                assert(fields@ == before.update(i as int, entry));
                lemma_member_update(before, i as int, entry, key@);
                assert(names(before)[i as int] == key@);
                assert(names(fields@) =~= names(before));
                assert(with_names(names(before), seq![key@]) == with_name(names(before), key@)) by {
                    reveal_with_fuel(with_names, 2);
                    assert(seq![key@].drop_first() =~= Seq::<Seq<char>>::empty());
                }
                assert forall|j: int|
                    0 <= j < before.len() && !(seq![key@].contains(before[j].0@) && first_of_name(
                        before,
                        j,
                    )) implies #[trigger] fields@[j] == before[j] by {
                    if j == i {
                        assert(seq![key@][0] == key@);
                    }
                }
                assert forall|k: Seq<char>| k != key@ implies #[trigger] member(fields@, k)
                    == member(before, k) by {
                    lemma_member_update(before, i as int, entry, k);
                }
            }
        },
        None => {
            let name = owned(key);
            let ghost entry = (name, value);
            fields.push((name, value));
            proof {
                lemma_member_push(before, entry, key@);
                assert(!names(before).contains(key@)) by {
                    if names(before).contains(key@) {
                        let x = choose|x: int| 0 <= x < names(before).len() && names(before)[x] == key@;
                        assert(before[x].0@ == key@);
                    }
                }
                assert(names(fields@) =~= names(before).push(key@));
                assert(with_names(names(before), seq![key@]) == with_name(names(before), key@)) by {
                    reveal_with_fuel(with_names, 2);
                    assert(seq![key@].drop_first() =~= Seq::<Seq<char>>::empty());
                }
                assert forall|k: Seq<char>| k != key@ implies #[trigger] member(fields@, k)
                    == member(before, k) by {
                    lemma_member_push(before, entry, k);
                }
            }
        },
    }
}

/// Takes the members of a value that takes members.
fn into_members(v: JsonValue) -> (r: Vec<(String, JsonValue)>)
    requires
        takes_members(v),
    ensures
        r@ == members(v),
{
    match v {
        JsonValue::Object(fields) => fields,
        _ => Vec::new(),
    }
}

/// Takes out the member `key`, null when it is absent; the value is left
/// with a null in its place.
fn take_member(fields: &mut Vec<(String, JsonValue)>, key: &str) -> (r: JsonValue)
    ensures
        sets_members(old(fields)@, final(fields)@, seq![key@]),
        r == (match member(old(fields)@, key@) {
            Some(x) => x,
            None => JsonValue::Null,
        }),
        member(final(fields)@, key@) matches Some(JsonValue::Null),
        forall|k: Seq<char>|
            k != key@ ==> #[trigger] member(final(fields)@, k) == member(old(fields)@, k),
{
    let ghost before = fields@;
    let taken = match find_member(fields, key) {
        Some(i) => {
            proof {
                lemma_member_at(before, key@, i as int);
            }
            let name = owned(key);
            let ghost blank = (name, JsonValue::Null);
            let removed = fields.remove(i);
            fields.insert(i, (name, JsonValue::Null));
            proof {
                assert(fields@ =~= before.update(i as int, blank));
                assert forall|k: Seq<char>| k != key@ implies #[trigger] member(fields@, k)
                    == member(before, k) by {
                    lemma_member_update(before, i as int, blank, k);
                }
                assert(names(before)[i as int] == key@);
                assert(names(fields@) =~= names(before));
                assert(with_names(names(before), seq![key@]) == with_name(names(before), key@)) by {
                    reveal_with_fuel(with_names, 2);
                    assert(seq![key@].drop_first() =~= Seq::<Seq<char>>::empty());
                }
                assert forall|j: int|
                    0 <= j < before.len() && !(seq![key@].contains(before[j].0@) && first_of_name(
                        before,
                        j,
                    )) implies #[trigger] fields@[j] == before[j] by {
                    if j == i {
                        assert(seq![key@][0] == key@);
                    }
                }
                assert(sets_members(before, fields@, seq![key@]));
            }
            removed.1
        },
        None => {
            proof {
                lemma_member_absent(before, key@);
            }
            JsonValue::Null
        },
    };
    let ghost middle = fields@;
    assert(forall|k: Seq<char>| k != key@ ==> #[trigger] member(middle, k) == member(before, k));
    set_member(fields, key, JsonValue::Null);
    proof {
        if middle != before {
            lemma_sets_twice(before, middle, fields@, key@);
        }
    }
    taken
}

/// Whether a profile manifest can be normalized (see `manifest_accepted`).
pub fn profile_manifest_accepted(doc: &JsonValue) -> (r: bool)
    ensures
        r == manifest_accepted(*doc),
{
    let fields = match doc {
        JsonValue::Object(fields) => fields,
        JsonValue::Null => return true,
        _ => return false,
    };
    let dsh = match find_member(fields, "dsh") {
        Some(i) => {
            proof {
                lemma_member_at(fields@, "dsh"@, i as int);
            }
            &fields[i].1
        },
        None => {
            proof {
                lemma_member_absent(fields@, "dsh"@);
            }
            return true;
        },
    };
    let dsh_fields = match dsh {
        JsonValue::Object(f) => f,
        JsonValue::Null => return true,
        _ => return false,
    };
    match find_member(dsh_fields, "profile") {
        Some(i) => {
            proof {
                lemma_member_at(dsh_fields@, "profile"@, i as int);
            }
            match &dsh_fields[i].1 {
                JsonValue::Object(_) => true,
                JsonValue::Null => true,
                _ => false,
            }
        },
        None => {
            proof {
                lemma_member_absent(dsh_fields@, "profile"@);
            }
            true
        },
    }
}

fn bundle_list() -> (r: JsonValue)
    ensures
        is_bundle_list(r),
{
    let mut items: Vec<JsonValue> = Vec::new();
    items.push(JsonValue::Text(owned("@deepseek-ai/dsh-base")));
    items.push(JsonValue::Text(owned("@deepseek-ai/dsh-web-app")));
    items.push(JsonValue::Text(owned("@linxin666/dsh-web-ui-all")));
    JsonValue::Array(items)
}

/// The `dsh` member of a manifest, null when absent.
pub open spec fn dsh_of(v: JsonValue) -> JsonValue {
    member_or_null(v, "dsh"@)
}

/// The `dsh.profile` member of a manifest, null when absent.
pub open spec fn profile_of(v: JsonValue) -> JsonValue {
    member_or_null(dsh_of(v), "profile"@)
}

/// Whether a manifest is in normal form: an object named
/// `dsh-profile-web`, marked private, whose `dsh.profile.bundles` is the list
/// of the profile's bundles.
pub open spec fn normal_form(v: JsonValue) -> bool {
    &&& v is Object
    &&& member(members(v), "name"@) matches Some(JsonValue::Text(n)) && n@ == "dsh-profile-web"@
    &&& member(members(v), "private"@) == Some(JsonValue::Bool(true))
    &&& dsh_of(v) is Object
    &&& profile_of(v) is Object
    &&& member(members(profile_of(v)), "bundles"@) matches Some(b) && is_bundle_list(b)
}

/// Whether `r` is the normalization of `doc`: `r` is in normal form; its
/// members are those of `doc` with `name`, `private` and `dsh` set, those
/// of its `dsh` member are those of `doc`'s with `profile` set, and those of
/// its `dsh.profile` member are those of `doc`'s with `bundles` set, each
/// member set where it stands or added at the end, nothing else changed.
pub open spec fn normalizes_to(doc: JsonValue, r: JsonValue) -> bool {
    &&& normal_form(r)
    &&& sets_members(members(doc), members(r), seq!["name"@, "private"@, "dsh"@])
    &&& sets_members(members(dsh_of(doc)), members(dsh_of(r)), seq!["profile"@])
    &&& sets_members(members(profile_of(doc)), members(profile_of(r)), seq!["bundles"@])
    &&& keeps_other_members(members(doc), members(r), seq!["name"@, "private"@, "dsh"@])
    &&& keeps_other_members(members(dsh_of(doc)), members(dsh_of(r)), seq!["profile"@])
    &&& keeps_other_members(members(profile_of(doc)), members(profile_of(r)), seq!["bundles"@])
}

/// Whether two values read the same: equal, or both texts with the same
/// characters, or both lists of the same length whose items read the same
/// item by item (equal, or texts with the same characters).
pub open spec fn reads_same(a: JsonValue, b: JsonValue) -> bool {
    ||| a == b
    ||| (a matches JsonValue::Text(x) && b matches JsonValue::Text(y) && x@ == y@)
    ||| (a matches JsonValue::Array(xs) && b matches JsonValue::Array(ys) && xs@.len()
        == ys@.len() && forall|i: int|
        0 <= i < xs@.len() ==> (#[trigger] xs@[i] == ys@[i] || (xs@[i] matches JsonValue::Text(
        x) && ys@[i] matches JsonValue::Text(y) && x@ == y@)))
}

/// Whether two lookups of a member read the same: both absent, or both
/// present with values that read the same.
pub open spec fn same_member(a: Option<JsonValue>, b: Option<JsonValue>) -> bool {
    match (a, b) {
        (None, None) => true,
        (Some(x), Some(y)) => reads_same(x, y),
        _ => false,
    }
}

/// A normalized manifest is accepted for normalization again.
pub proof fn law_normalized_manifest_accepted(doc: JsonValue, r: JsonValue)
    requires
        manifest_accepted(doc),
        normalizes_to(doc, r),
    ensures
        manifest_accepted(r),
{
}

proof fn lemma_member_named(fields: Seq<(String, JsonValue)>, key: Seq<char>)
    requires
        member(fields, key) is Some,
    ensures
        names(fields).contains(key),
    decreases fields.len(),
{
    if fields[0].0@ == key {
        assert(names(fields)[0] == key);
    } else {
        lemma_member_named(fields.drop_first(), key);
        let x = choose|x: int| 0 <= x < names(fields.drop_first()).len() && names(fields.drop_first())[x] == key;
        assert(names(fields)[x + 1] == key);
    }
}

/// Normalizing a manifest that is already in normal form changes nothing:
/// the document, its `dsh` member and its `dsh.profile` member keep their
/// member names, in order, and every member reads the same before and
/// after.
pub proof fn law_normalizing_normal_form_changes_nothing(doc: JsonValue, r: JsonValue)
    requires
        normal_form(doc),
        normalizes_to(doc, r),
    ensures
        names(members(r)) == names(members(doc)),
        names(members(dsh_of(r))) == names(members(dsh_of(doc))),
        names(members(profile_of(r))) == names(members(profile_of(doc))),
        forall|k: Seq<char>|
            k != "dsh"@ ==> same_member(
                #[trigger] member(members(r), k),
                member(members(doc), k),
            ),
        forall|k: Seq<char>|
            k != "profile"@ ==> same_member(
                #[trigger] member(members(dsh_of(r)), k),
                member(members(dsh_of(doc)), k),
            ),
        forall|k: Seq<char>|
            same_member(
                #[trigger] member(members(profile_of(r)), k),
                member(members(profile_of(doc)), k),
            ),
{
    let keys = seq!["name"@, "private"@, "dsh"@];
    lemma_member_named(members(doc), "name"@);
    lemma_member_named(members(doc), "private"@);
    lemma_member_named(members(doc), "dsh"@);
    assert forall|i: int| 0 <= i < keys.len() implies names(members(doc)).contains(#[trigger] keys[i]) by {
        assert(i == 0 || i == 1 || i == 2);
    }
    lemma_with_names_present(names(members(doc)), keys);
    lemma_member_named(members(dsh_of(doc)), "profile"@);
    assert forall|i: int| 0 <= i < seq!["profile"@].len() implies names(members(dsh_of(doc))).contains(
        #[trigger] seq!["profile"@][i],
    ) by {}
    lemma_with_names_present(names(members(dsh_of(doc))), seq!["profile"@]);
    lemma_member_named(members(profile_of(doc)), "bundles"@);
    assert forall|i: int| 0 <= i < seq!["bundles"@].len() implies names(members(profile_of(doc))).contains(
        #[trigger] seq!["bundles"@][i],
    ) by {}
    lemma_with_names_present(names(members(profile_of(doc))), seq!["bundles"@]);
    assert forall|k: Seq<char>| k != "dsh"@ implies same_member(
        #[trigger] member(members(r), k),
        member(members(doc), k),
    ) by {
        if k != "name"@ && k != "private"@ {
            assert(!keys.contains(k)) by {
                if keys.contains(k) {
                    let i = choose|i: int| 0 <= i < keys.len() && keys[i] == k;
                    assert(i == 0 || i == 1 || i == 2);
                }
            }
        }
    }
    let dkeys = seq!["profile"@];
    assert forall|k: Seq<char>| k != "profile"@ implies same_member(
        #[trigger] member(members(dsh_of(r)), k),
        member(members(dsh_of(doc)), k),
    ) by {
        assert(!dkeys.contains(k)) by {
            if dkeys.contains(k) {
                let i = choose|i: int| 0 <= i < dkeys.len() && dkeys[i] == k;
                assert(i == 0);
            }
        }
    }
    let pkeys = seq!["bundles"@];
    assert forall|k: Seq<char>|
        same_member(
            #[trigger] member(members(profile_of(r)), k),
            member(members(profile_of(doc)), k),
        ) by {
        if k != "bundles"@ {
            assert(!pkeys.contains(k)) by {
                if pkeys.contains(k) {
                    let i = choose|i: int| 0 <= i < pkeys.len() && pkeys[i] == k;
                    assert(i == 0);
                }
            }
        }
    }
}

/// Normalizes the web profile manifest: names it `dsh-profile-web`, marks
/// it private and sets `dsh.profile.bundles` to the profile's bundles,
/// creating `dsh` and `dsh.profile` where they are absent or null; every
/// other member stays as it was.
pub fn normalize_profile_manifest(doc: JsonValue) -> (r: JsonValue)
    requires
        manifest_accepted(doc),
    ensures
        normalizes_to(doc, r),
{
    proof {
        reveal_strlit("name");
        reveal_strlit("private");
        reveal_strlit("dsh");
        assert("name"@.len() == 4);
        assert("private"@.len() == 7);
        assert("dsh"@.len() == 3);
    }
    let ghost input_doc = doc;
    let mut fields = into_members(doc);
    let ghost f0 = fields@;
    let name = owned("dsh-profile-web");
    set_member(&mut fields, "name", JsonValue::Text(name));
    let ghost f1 = fields@;
    set_member(&mut fields, "private", JsonValue::Bool(true));
    let ghost f2 = fields@;
    let dsh = take_member(&mut fields, "dsh");
    let ghost f3 = fields@;
    let mut dsh_fields = into_members(dsh);
    let ghost d0 = dsh_fields@;
    let profile = take_member(&mut dsh_fields, "profile");
    let ghost profile_in = profile;
    let ghost d1 = dsh_fields@;
    let mut profile_fields = into_members(profile);
    let ghost p0 = profile_fields@;
    let bundles = bundle_list();
    let ghost bundles_value = bundles;
    set_member(&mut profile_fields, "bundles", bundles);
    let ghost p1 = profile_fields@;
    let ghost profile_value = JsonValue::Object(profile_fields);
    set_member(&mut dsh_fields, "profile", JsonValue::Object(profile_fields));
    let ghost d2 = dsh_fields@;
    let ghost dsh_value = JsonValue::Object(dsh_fields);
    set_member(&mut fields, "dsh", JsonValue::Object(dsh_fields));
    let ghost f4 = fields@;
    proof {
        lemma_sets_compose(f0, f1, f2, seq!["name"@], seq!["private"@]);
        lemma_sets_twice(f2, f3, f4, "dsh"@);
        lemma_sets_compose(f0, f2, f4, seq!["name"@] + seq!["private"@], seq!["dsh"@]);
        assert(seq!["name"@] + seq!["private"@] + seq!["dsh"@] =~= seq!["name"@, "private"@, "dsh"@]);
        lemma_sets_twice(d0, d1, d2, "profile"@);
        assert(member(f4, "name"@) == member(f1, "name"@));
        assert(member(f4, "private"@) == member(f2, "private"@));
        assert(member(f4, "dsh"@) == Some(dsh_value));
        assert(member(d2, "profile"@) == Some(profile_value));
        assert(member(p1, "bundles"@) == Some(bundles_value));
        let keys = seq!["name"@, "private"@, "dsh"@];
        assert forall|k: Seq<char>| !keys.contains(k) implies member(f4, k) == #[trigger] member(
            f0,
            k,
        ) by {
            assert(k != "name"@ && k != "private"@ && k != "dsh"@) by {
                if k == "name"@ {
                    assert(keys[0] == k);
                }
                if k == "private"@ {
                    assert(keys[1] == k);
                }
                if k == "dsh"@ {
                    assert(keys[2] == k);
                }
            }
            assert(member(f4, k) == member(f3, k));
            assert(member(f3, k) == member(f2, k));
            assert(member(f2, k) == member(f1, k));
        }
        assert(keeps_other_members(f0, f4, keys));
        let dkeys = seq!["profile"@];
        assert forall|k: Seq<char>| !dkeys.contains(k) implies member(d2, k) == #[trigger] member(
            d0,
            k,
        ) by {
            if k == "profile"@ {
                assert(dkeys[0] == k);
            }
            assert(member(d2, k) == member(d1, k));
        }
        assert(keeps_other_members(d0, d2, dkeys));
        let pkeys = seq!["bundles"@];
        assert forall|k: Seq<char>| !pkeys.contains(k) implies member(p1, k) == #[trigger] member(
            p0,
            k,
        ) by {
            if k == "bundles"@ {
                assert(pkeys[0] == k);
            }
        }
        assert(keeps_other_members(p0, p1, pkeys));
        assert(profile_in == member_or_null(member_or_null(input_doc, "dsh"@), "profile"@));
    }
    JsonValue::Object(fields)
}

} // verus!
