//! A JSON value as a tagged tree, and the merge of caller-supplied overrides
//! into default request options.

use vstd::prelude::*;
use vstd::string::*;

verus! {

/// A JSON value. A number keeps the text it was written with; an object
/// keeps its members in order.
#[derive(Debug)]
pub enum JsonValue {
    Null,
    Bool(bool),
    Number(String),
    Text(String),
    Array(Vec<JsonValue>),
    Object(Vec<Member>),
}

/// A member of a JSON object.
#[derive(Debug)]
pub struct Member {
    pub key: String,
    pub value: JsonValue,
}

/// Mathematical form of a [`Member`].
pub struct MemberModel {
    pub key: Seq<char>,
    pub value: JsonModel,
}

/// Mathematical form of a [`JsonValue`].
pub enum JsonModel {
    Null,
    Bool(bool),
    Number(Seq<char>),
    Text(Seq<char>),
    Array(Seq<JsonModel>),
    Object(Seq<MemberModel>),
}

impl View for JsonValue {
    type V = JsonModel;

    open spec fn view(&self) -> JsonModel
        decreases self,
    {
        match self {
            JsonValue::Null => JsonModel::Null,
            JsonValue::Bool(b) => JsonModel::Bool(*b),
            JsonValue::Number(n) => JsonModel::Number(n@),
            JsonValue::Text(t) => JsonModel::Text(t@),
            JsonValue::Array(items) => JsonModel::Array(
                Seq::new(
                    items@.len(),
                    |i: int|
                        if 0 <= i < items@.len() {
                            items@[i].view()
                        } else {
                            JsonModel::Null
                        },
                ),
            ),
            JsonValue::Object(members) => JsonModel::Object(
                Seq::new(
                    members@.len(),
                    |i: int|
                        if 0 <= i < members@.len() {
                            MemberModel { key: members@[i].key@, value: members@[i].value.view() }
                        } else {
                            MemberModel { key: Seq::empty(), value: JsonModel::Null }
                        },
                ),
            ),
        }
    }
}

/// Whether no two members go by the same key.
pub open spec fn distinct_keys(members: Seq<MemberModel>) -> bool {
    forall|i: int, j: int|
        0 <= i < j < members.len() ==> (#[trigger] members[i]).key != (#[trigger] members[j]).key
}

impl JsonModel {
    /// Whether the value is one that a JSON document can hold: at every
    /// level, no object has two members of the same key.
    pub open spec fn well_keyed(self) -> bool
        decreases self,
    {
        match self {
            JsonModel::Array(items) => forall|i: int|
                0 <= i < items.len() ==> (#[trigger] items[i]).well_keyed(),
            JsonModel::Object(members) => distinct_keys(members) && forall|i: int|
                0 <= i < members.len() ==> (#[trigger] members[i]).value.well_keyed(),
            _ => true,
        }
    }
}

/// Index of the first member called `key`, if there is one.
pub open spec fn member_index(members: Seq<MemberModel>, key: Seq<char>) -> Option<int>
    decreases members.len(),
{
    if members.len() == 0 {
        None
    } else {
        match member_index(members.drop_last(), key) {
            Some(i) => Some(i),
            None => if members.last().key == key {
                Some(members.len() - 1)
            } else {
                None
            },
        }
    }
}

/// The merge of `over` into `base`. Two objects merge member by member: a
/// member of `over` that `base` has too is merged into it, where it stands,
/// and every other member of `over` is added behind the members of `base`.
/// Whatever else `over` is replaces `base` as a whole.
pub open spec fn merged(base: JsonModel, over: JsonModel) -> JsonModel
    decreases
        over,
        match over {
            JsonModel::Object(theirs) => theirs.len() + 1,
            _ => 0,
        },
{
    match (base, over) {
        (JsonModel::Object(ours), JsonModel::Object(theirs)) => JsonModel::Object(
            merged_members(ours, theirs, over),
        ),
        _ => over,
    }
}

/// The members of `ours` after the members `theirs` have been merged in,
/// in order. `theirs` is a beginning of the member list of the object
/// `parent`; naming the whole object is what makes the definition
/// well-founded, since every value that is merged deeper lies inside it.
pub open spec fn merged_members(
    ours: Seq<MemberModel>,
    theirs: Seq<MemberModel>,
    parent: JsonModel,
) -> Seq<MemberModel>
    recommends
        parent matches JsonModel::Object(all) && theirs.is_prefix_of(all),
    decreases parent, theirs.len(),
{
    if theirs.len() == 0 {
        ours
    } else {
        let before = merged_members(ours, theirs.drop_last(), parent);
        let member = theirs.last();
        if parent matches JsonModel::Object(all) && theirs.is_prefix_of(all) {
            match member_index(before, member.key) {
                Some(i) => before.update(
                    i,
                    MemberModel { key: member.key, value: merged(before[i].value, member.value) },
                ),
                None => before.push(member),
            }
        } else {
            before
        }
    }
}

/// The mathematical form of a list of members.
pub open spec fn members_view(members: Seq<Member>) -> Seq<MemberModel> {
    Seq::new(members.len(), |i: int| MemberModel { key: members[i].key@, value: members[i].value@ })
}

/// The mathematical form of a list of values.
pub open spec fn items_view(items: Seq<JsonValue>) -> Seq<JsonModel> {
    Seq::new(items.len(), |i: int| items[i]@)
}

proof fn object_view(members: Vec<Member>)
    ensures
        JsonValue::Object(members)@ == JsonModel::Object(members_view(members@)),
{
    assert(JsonValue::Object(members)@->Object_0 =~= members_view(members@));
}

proof fn array_view(items: Vec<JsonValue>)
    ensures
        JsonValue::Array(items)@ == JsonModel::Array(items_view(items@)),
{
    assert(JsonValue::Array(items)@->Array_0 =~= items_view(items@));
}

/// A member found among the first `upto` members is the one that the whole
/// list yields for the key.
proof fn member_index_is_stable(members: Seq<MemberModel>, key: Seq<char>, upto: int)
    requires
        0 <= upto <= members.len(),
        member_index(members.take(upto), key) is Some,
    ensures
        member_index(members, key) == member_index(members.take(upto), key),
    decreases members.len() - upto,
{
    if upto < members.len() {
        assert(members.take(upto + 1).drop_last() =~= members.take(upto));
        member_index_is_stable(members, key, upto + 1);
    } else {
        assert(members.take(upto) =~= members);
    }
}

fn find_member(members: &Vec<Member>, key: &String) -> (found: Option<usize>)
    ensures
        match found {
            Some(i) => member_index(members_view(members@), key@) == Some(i as int) && i
                < members.len() && members@[i as int].key@ == key@,
            None => member_index(members_view(members@), key@) is None,
        },
{
    let ghost all = members_view(members@);
    let mut i: usize = 0;
    assert(all.take(0) =~= Seq::<MemberModel>::empty());
    while i < members.len()
        invariant
            i <= members.len(),
            all == members_view(members@),
            member_index(all.take(i as int), key@) is None,
        decreases members.len() - i,
    {
        proof {
            assert(all.take(i + 1).drop_last() =~= all.take(i as int));
            assert(all.take(i + 1).last() == all[i as int]);
        }
        if members[i].key == *key {
            proof {
                member_index_is_stable(all, key@, i + 1);
            }
            return Some(i);
        }
        i = i + 1;
    }
    assert(all.take(members.len() as int) =~= all);
    None
}

/// A copy of `value`.
pub fn copy_of(value: &JsonValue) -> (r: JsonValue)
    ensures
        r@ == value@,
    decreases value,
{
    match value {
        JsonValue::Null => JsonValue::Null,
        JsonValue::Bool(b) => JsonValue::Bool(*b),
        JsonValue::Number(n) => JsonValue::Number(n.clone()),
        JsonValue::Text(t) => JsonValue::Text(t.clone()),
        JsonValue::Array(items) => {
            let mut copies: Vec<JsonValue> = Vec::new();
            let mut i: usize = 0;
            while i < items.len()
                invariant
                    i <= items.len(),
                    *value == JsonValue::Array(*items),
                    copies@.len() == i,
                    forall|k: int| 0 <= k < i ==> copies@[k]@ == items@[k]@,
                decreases items.len() - i,
            {
                assert(decreases_to!(value => items@[i as int])) by {
                    assert(value->Array_0 == *items);
                }
                copies.push(copy_of(&items[i]));
                i = i + 1;
            }
            proof {
                array_view(copies);
                array_view(*items);
                assert(items_view(copies@) =~= items_view(items@));
            }
            JsonValue::Array(copies)
        },
        JsonValue::Object(members) => {
            let mut copies: Vec<Member> = Vec::new();
            let mut i: usize = 0;
            while i < members.len()
                invariant
                    i <= members.len(),
                    *value == JsonValue::Object(*members),
                    copies@.len() == i,
                    forall|k: int|
                        0 <= k < i ==> copies@[k].key@ == members@[k].key@ && copies@[k].value@
                            == members@[k].value@,
                decreases members.len() - i,
            {
                assert(decreases_to!(value => members@[i as int].value)) by {
                    assert(value->Object_0 == *members);
                }
                copies.push(
                    Member { key: members[i].key.clone(), value: copy_of(&members[i].value) },
                );
                i = i + 1;
            }
            proof {
                object_view(copies);
                object_view(*members);
                assert(members_view(copies@) =~= members_view(members@));
            }
            JsonValue::Object(copies)
        },
    }
}

/// Merges `over` into `base`. Where both hold no object with a repeated
/// key, neither does the result.
pub fn merge_json(base: JsonValue, over: &JsonValue) -> (r: JsonValue)
    ensures
        r@ == merged(base@, over@),
        base@.well_keyed() && over@.well_keyed() ==> r@.well_keyed(),
    decreases over,
{
    proof {
        if base@.well_keyed() && over@.well_keyed() {
            merge_keeps_keys_distinct(base@, over@);
        }
    }
    match over {
        JsonValue::Object(theirs) => match base {
            JsonValue::Object(members) => {
                let mut ours = members;
                let ghost start = members_view(ours@);
                let ghost all = members_view(theirs@);
                proof {
                    object_view(*theirs);
                    object_view(ours);
                    assert(all.take(0) =~= Seq::<MemberModel>::empty());
                }
                let mut k: usize = 0;
                while k < theirs.len()
                    invariant
                        k <= theirs.len(),
                        all == members_view(theirs@),
                        over@ == JsonModel::Object(all),
                        *over == JsonValue::Object(*theirs),
                        members_view(ours@) == merged_members(start, all.take(k as int), over@),
                    decreases theirs.len() - k,
                {
                    let ghost before = members_view(ours@);
                    proof {
                        assert(all.take(k + 1).drop_last() =~= all.take(k as int));
                        assert(all.take(k + 1).last() == all[k as int]);
                        assert(all.take(k + 1).is_prefix_of(all));
                    }
                    match find_member(&ours, &theirs[k].key) {
                        Some(i) => {
                            let ghost old_list = ours@;
                            let old_member = ours.remove(i);
                            let ghost old_value = old_member.value@;
                            let value = merge_json(old_member.value, &theirs[k].value);
                            ours.insert(i, Member { key: old_member.key, value });
                            assert(ours@ =~= old_list.update(i as int, ours@[i as int]));
                            assert(before[i as int].value == old_value);
                            assert(members_view(ours@) =~= before.update(
                                i as int,
                                MemberModel {
                                    key: all[k as int].key,
                                    value: merged(old_value, all[k as int].value),
                                },
                            ));
                        },
                        None => {
                            ours.push(
                                Member {
                                    key: theirs[k].key.clone(),
                                    value: copy_of(&theirs[k].value),
                                },
                            );
                            assert(members_view(ours@) =~= before.push(all[k as int]));
                        },
                    }
                    k = k + 1;
                }
                proof {
                    assert(all.take(theirs.len() as int) =~= all);
                    object_view(ours);
                }
                JsonValue::Object(ours)
            },
            _ => copy_of(over),
        },
        _ => copy_of(over),
    }
}

/// Merging an object without members into an object changes nothing.
pub proof fn merging_nothing_changes_nothing(ours: Seq<MemberModel>)
    ensures
        merged(JsonModel::Object(ours), JsonModel::Object(Seq::empty())) == JsonModel::Object(ours),
{
}

/// Unless both values are objects, the override replaces the default as a
/// whole.
pub proof fn other_values_replace(base: JsonModel, over: JsonModel)
    requires
        !(base is Object && over is Object),
    ensures
        merged(base, over) == over,
{
}

/// A merge keeps every member of the default where it stands and under its
/// key; members are only changed in value or added behind.
pub proof fn merge_keeps_members_in_place(
    ours: Seq<MemberModel>,
    theirs: Seq<MemberModel>,
    parent: JsonModel,
    i: int,
)
    requires
        0 <= i < ours.len(),
    ensures
        merged_members(ours, theirs, parent).len() >= ours.len(),
        merged_members(ours, theirs, parent)[i].key == ours[i].key,
    decreases theirs.len(),
{
    if theirs.len() > 0 {
        merge_keeps_members_in_place(ours, theirs.drop_last(), parent, i);
        let before = merged_members(ours, theirs.drop_last(), parent);
        let member = theirs.last();
        match member_index(before, member.key) {
            Some(at) => {
                member_index_is_within(before, member.key);
            },
            None => {},
        }
    }
}

/// An index that `member_index` yields lies in the list, and the member
/// there goes by the key.
pub proof fn member_index_is_within(members: Seq<MemberModel>, key: Seq<char>)
    ensures
        match member_index(members, key) {
            Some(i) => 0 <= i < members.len() && members[i].key == key,
            None => forall|k: int| 0 <= k < members.len() ==> members[k].key != key,
        },
    decreases members.len(),
{
    if members.len() > 0 {
        member_index_is_within(members.drop_last(), key);
        match member_index(members.drop_last(), key) {
            Some(i) => {
                assert(members.drop_last()[i] == members[i]);
            },
            None => {
                assert forall|k: int| 0 <= k < members.len() - 1 implies members[k].key != key by {
                    assert(members.drop_last()[k] == members[k]);
                }
            },
        }
    }
}

/// A merge of two values without repeated keys has no repeated key: a
/// member of the override either takes the place of the member of its key
/// or comes in under a key that was not there.
pub proof fn merge_keeps_keys_distinct(base: JsonModel, over: JsonModel)
    requires
        base.well_keyed(),
        over.well_keyed(),
    ensures
        merged(base, over).well_keyed(),
    decreases
        over,
        match over {
            JsonModel::Object(theirs) => theirs.len() + 1,
            _ => 0,
        },
{
    match (base, over) {
        (JsonModel::Object(ours), JsonModel::Object(theirs)) => {
            assert(theirs.is_prefix_of(theirs));
            merged_members_keep_keys_distinct(ours, theirs, over);
        },
        _ => {},
    }
}

proof fn merged_members_keep_keys_distinct(
    ours: Seq<MemberModel>,
    theirs: Seq<MemberModel>,
    parent: JsonModel,
)
    requires
        JsonModel::Object(ours).well_keyed(),
        parent.well_keyed(),
        parent matches JsonModel::Object(all) && theirs.is_prefix_of(all),
    ensures
        JsonModel::Object(merged_members(ours, theirs, parent)).well_keyed(),
    decreases parent, theirs.len(),
{
    if theirs.len() > 0 {
        let all = parent->Object_0;
        let shorter = theirs.drop_last();
        assert(shorter.is_prefix_of(all));
        merged_members_keep_keys_distinct(ours, shorter, parent);
        let before = merged_members(ours, shorter, parent);
        let member = theirs.last();
        assert(member == all[theirs.len() - 1]);
        assert(member.value.well_keyed());
        member_index_is_within(before, member.key);
        let after = merged_members(ours, theirs, parent);
        match member_index(before, member.key) {
            Some(i) => {
                merge_keeps_keys_distinct(before[i].value, member.value);
                assert forall|k: int| 0 <= k < after.len() implies (
                #[trigger] after[k]).value.well_keyed() by {
                    if k != i {
                        assert(after[k] == before[k]);
                    }
                }
                assert forall|a: int, b: int| 0 <= a < b < after.len() implies (
                #[trigger] after[a]).key != (#[trigger] after[b]).key by {
                    assert(after[a].key == before[a].key && after[b].key == before[b].key);
                }
            },
            None => {
                assert forall|k: int| 0 <= k < after.len() implies (
                #[trigger] after[k]).value.well_keyed() by {
                    if k < before.len() {
                        assert(after[k] == before[k]);
                    }
                }
                assert forall|a: int, b: int| 0 <= a < b < after.len() implies (
                #[trigger] after[a]).key != (#[trigger] after[b]).key by {
                    if b < before.len() {
                        assert(after[a] == before[a] && after[b] == before[b]);
                    } else {
                        assert(after[a] == before[a]);
                    }
                }
            },
        }
    }
}

} // verus!
