use vstd::prelude::*;
use vstd::string::StringExecFns;
use vstd::seq_lib::lemma_concat_associative;
use crate::debug_text::{debug_list, debug_quoted, push_debug_list, push_debug_quoted, texts_view};
use crate::fixture::ProjectJsonMutation;
use crate::text::{decimal, decimal_text, push_decimal};

verus! {

// ---------------------------------------------------------------------------
// The rights boundary of saved project files: a project file holds metadata
// only, never audio bytes or paths to sample files.
// ---------------------------------------------------------------------------

/// What a project file's `rights_boundary` field must say.
pub const PROJECT_FILE_RIGHTS_BOUNDARY: &'static str = "metadata_only_no_audio_bytes";

/// A parsed JSON document. Objects keep their entries in the order the
/// parser hands them out; numbers keep the text they were written with.
#[derive(Debug, PartialEq, Eq)]
pub enum JsonValue {
    Null,
    Bool(bool),
    Number(String),
    Text(String),
    Array(Vec<JsonValue>),
    Object(Vec<(String, JsonValue)>),
}

/// The mathematical content of a JSON document.
pub enum JsonView {
    Null,
    Bool(bool),
    Number(Seq<char>),
    Text(Seq<char>),
    Array(Seq<JsonView>),
    Object(Seq<(Seq<char>, JsonView)>),
}

pub open spec fn json_view(value: JsonValue) -> JsonView
    decreases value, 0nat,
{
    match value {
        JsonValue::Null => JsonView::Null,
        JsonValue::Bool(flag) => JsonView::Bool(flag),
        JsonValue::Number(text) => JsonView::Number(text@),
        JsonValue::Text(text) => JsonView::Text(text@),
        JsonValue::Array(items) => JsonView::Array(item_views(items@, items@.len())),
        JsonValue::Object(entries) => JsonView::Object(entry_views(entries@, entries@.len())),
    }
}

/// The views of the first `n` elements.
pub open spec fn item_views(items: Seq<JsonValue>, n: nat) -> Seq<JsonView>
    decreases items, n,
{
    if n == 0 || n > items.len() {
        Seq::empty()
    } else {
        item_views(items, (n - 1) as nat).push(json_view(items[n - 1]))
    }
}

/// The views of the first `n` members.
pub open spec fn entry_views(entries: Seq<(String, JsonValue)>, n: nat) -> Seq<(Seq<char>, JsonView)>
    decreases entries, n,
{
    if n == 0 || n > entries.len() {
        Seq::empty()
    } else {
        entry_views(entries, (n - 1) as nat).push((entries[n - 1].0@, json_view(entries[n - 1].1)))
    }
}

impl View for JsonValue {
    type V = JsonView;

    open spec fn view(&self) -> JsonView {
        json_view(*self)
    }
}

pub proof fn lemma_item_views(items: Seq<JsonValue>, n: nat)
    requires
        n <= items.len(),
    ensures
        item_views(items, n).len() == n,
        forall|i: int| 0 <= i < n ==> #[trigger] item_views(items, n)[i] == json_view(items[i]),
    decreases n,
{
    if n > 0 {
        lemma_item_views(items, (n - 1) as nat);
    }
}

pub proof fn lemma_entry_views(entries: Seq<(String, JsonValue)>, n: nat)
    requires
        n <= entries.len(),
    ensures
        entry_views(entries, n).len() == n,
        forall|i: int|
            0 <= i < n ==> #[trigger] entry_views(entries, n)[i] == (entries[i].0@, json_view(entries[i].1)),
    decreases n,
{
    if n > 0 {
        lemma_entry_views(entries, (n - 1) as nat);
    }
}

// ---------------------------------------------------------------------------
// Members addressed by a path of keys
// ---------------------------------------------------------------------------

/// The index of the first member named `key`, searching from `from`.
pub open spec fn first_key_index(entries: Seq<(Seq<char>, JsonView)>, key: Seq<char>, from: nat) -> Option<nat>
    decreases entries.len() - from,
{
    if from >= entries.len() {
        None
    } else if entries[from as int].0 == key {
        Some(from)
    } else {
        first_key_index(entries, key, from + 1)
    }
}

/// The value reached by following `keys` through nested objects, the
/// first member of each name counting.
pub open spec fn member_at(value: JsonView, keys: Seq<Seq<char>>) -> Option<JsonView>
    decreases keys.len(),
{
    if keys.len() == 0 {
        Some(value)
    } else {
        match value {
            JsonView::Object(entries) => match first_key_index(entries, keys[0], 0) {
                Some(i) => member_at(entries[i as int].1, keys.drop_first()),
                None => None,
            },
            _ => None,
        }
    }
}

/// The document with the value at `keys` replaced, when that value exists.
pub open spec fn with_member_at(value: JsonView, keys: Seq<Seq<char>>, replacement: JsonView) -> Option<JsonView>
    decreases keys.len(),
{
    if keys.len() == 0 {
        Some(replacement)
    } else {
        match value {
            JsonView::Object(entries) => match first_key_index(entries, keys[0], 0) {
                Some(i) => match with_member_at(entries[i as int].1, keys.drop_first(), replacement) {
                    Some(child) => Some(JsonView::Object(entries.update(i as int, (entries[i as int].0, child)))),
                    None => None,
                },
                None => None,
            },
            _ => None,
        }
    }
}

pub open spec fn keys_view(keys: Seq<&str>) -> Seq<Seq<char>> {
    keys.map_values(|k: &str| k@)
}

pub proof fn lemma_first_key_index(entries: Seq<(Seq<char>, JsonView)>, key: Seq<char>, from: nat)
    ensures
        match first_key_index(entries, key, from) {
            Some(i) => from <= i < entries.len() && entries[i as int].0 == key && forall|j: int|
                from <= j < i ==> entries[j].0 != key,
            None => forall|j: int| from <= j < entries.len() ==> entries[j].0 != key,
        },
    decreases entries.len() - from,
{
    if from < entries.len() && entries[from as int].0 != key {
        lemma_first_key_index(entries, key, from + 1);
    }
}

/// A value that exists can be replaced.
pub proof fn lemma_member_can_be_replaced(value: JsonView, keys: Seq<Seq<char>>, replacement: JsonView)
    requires
        member_at(value, keys) is Some,
    ensures
        with_member_at(value, keys, replacement) is Some,
    decreases keys.len(),
{
    if keys.len() > 0 {
        match value {
            JsonView::Object(entries) => match first_key_index(entries, keys[0], 0) {
                Some(i) => lemma_member_can_be_replaced(entries[i as int].1, keys.drop_first(), replacement),
                None => {},
            },
            _ => {},
        }
    }
}

impl JsonValue {
    /// A deep copy.
    pub fn duplicate(&self) -> (copy: JsonValue)
        ensures
            copy@ == self@,
        decreases self,
    {
        match self {
            JsonValue::Null => JsonValue::Null,
            JsonValue::Bool(flag) => JsonValue::Bool(*flag),
            JsonValue::Number(text) => JsonValue::Number(text.clone()),
            JsonValue::Text(text) => JsonValue::Text(text.clone()),
            JsonValue::Array(items) => {
                let mut copies: Vec<JsonValue> = Vec::new();
                let mut index: usize = 0;
                while index < items.len()
                    invariant
                        index <= items@.len(),
                        *self == JsonValue::Array(*items),
                        copies@.len() == index,
                        forall|i: int| 0 <= i < index ==> json_view(#[trigger] copies@[i]) == json_view(items@[i]),
                    decreases items@.len() - index,
                {
                    proof {
                        assert(decreases_to!(*self => (*self)->Array_0));
                        assert(decreases_to!(*items => items@));
                        assert(decreases_to!(items@ => items@[index as int]));
                    }
                    let copy = items[index].duplicate();
                    copies.push(copy);
                    index = index + 1;
                }
                proof {
                    lemma_item_views(items@, items@.len());
                    lemma_item_views(copies@, copies@.len());
                    assert(item_views(copies@, copies@.len()) =~= item_views(items@, items@.len()));
                }
                JsonValue::Array(copies)
            },
            JsonValue::Object(entries) => {
                let mut copies: Vec<(String, JsonValue)> = Vec::new();
                let mut index: usize = 0;
                while index < entries.len()
                    invariant
                        index <= entries@.len(),
                        *self == JsonValue::Object(*entries),
                        copies@.len() == index,
                        forall|i: int|
                            0 <= i < index ==> (#[trigger] copies@[i]).0@ == entries@[i].0@ && json_view(copies@[i].1)
                                == json_view(entries@[i].1),
                    decreases entries@.len() - index,
                {
                    proof {
                        assert(decreases_to!(*self => (*self)->Object_0));
                        assert(decreases_to!(*entries => entries@));
                        assert(decreases_to!(entries@ => entries@[index as int]));
                        assert(decreases_to!(entries@[index as int] => entries@[index as int].1));
                    }
                    let entry = &entries[index];
                    let copy = (entry.0.clone(), entry.1.duplicate());
                    copies.push(copy);
                    index = index + 1;
                }
                proof {
                    lemma_entry_views(entries@, entries@.len());
                    lemma_entry_views(copies@, copies@.len());
                    assert(entry_views(copies@, copies@.len()) =~= entry_views(entries@, entries@.len()));
                }
                JsonValue::Object(copies)
            },
        }
    }
}

/// The index of the first member named `key`.
fn first_member_index(entries: &Vec<(String, JsonValue)>, key: &str) -> (index: Option<usize>)
    ensures
        match index {
            Some(i) => i < entries@.len() && first_key_index(entry_views(entries@, entries@.len()), key@, 0) == Some(
                i as nat,
            ),
            None => first_key_index(entry_views(entries@, entries@.len()), key@, 0) is None,
        },
{
    proof {
        lemma_entry_views(entries@, entries@.len());
        lemma_first_key_index(entry_views(entries@, entries@.len()), key@, 0);
    }
    let wanted = key.to_owned();
    let mut index: usize = 0;
    while index < entries.len()
        invariant
            index <= entries@.len(),
            wanted@ == key@,
            forall|j: int| 0 <= j < index ==> entries@[j].0@ != key@,
        decreases entries@.len() - index,
    {
        if entries[index].0 == wanted {
            proof {
                let views = entry_views(entries@, entries@.len());
                lemma_entry_views(entries@, entries@.len());
                lemma_first_key_index(views, key@, 0);
                match first_key_index(views, key@, 0) {
                    Some(i) => {
                        assert(views[index as int].0 == key@);
                        assert(i == index);
                    },
                    None => {
                        assert(views[index as int].0 == key@);
                    },
                }
            }
            return Some(index);
        }
        index = index + 1;
    }
    proof {
        let views = entry_views(entries@, entries@.len());
        lemma_entry_views(entries@, entries@.len());
        lemma_first_key_index(views, key@, 0);
        match first_key_index(views, key@, 0) {
            Some(i) => {
                assert(entries@[i as int].0@ != key@);
            },
            None => {},
        }
    }
    None
}

/// The value at `keys[from..]` below `value`, when there is one.
fn member_at_ref<'a>(value: &'a JsonValue, keys: &Vec<&str>, from: usize) -> (found: Option<&'a JsonValue>)
    requires
        from <= keys@.len(),
    ensures
        match member_at(value@, keys_view(keys@).skip(from as int)) {
            Some(v) => found matches Some(f) && f@ == v,
            None => found is None,
        },
    decreases keys@.len() - from,
{
    if from == keys.len() {
        proof {
            assert(keys_view(keys@).skip(from as int).len() == 0);
        }
        return Some(value);
    }
    let ghost rest = keys_view(keys@).skip(from as int);
    proof {
        assert(rest[0] == keys@[from as int]@);
        assert(rest.drop_first() =~= keys_view(keys@).skip(from + 1));
    }
    match value {
        JsonValue::Object(entries) => {
            proof {
                lemma_entry_views(entries@, entries@.len());
            }
            match first_member_index(entries, keys[from]) {
                Some(index) => member_at_ref(&entries[index].1, keys, from + 1),
                None => None,
            }
        },
        _ => None,
    }
}

/// Replaces the value at `keys[from..]` below `value`; says whether it existed.
fn set_member_path(value: &mut JsonValue, keys: &Vec<&str>, from: usize, replacement: JsonValue) -> (replaced: bool)
    requires
        from <= keys@.len(),
    ensures
        match with_member_at(old(value)@, keys_view(keys@).skip(from as int), replacement@) {
            Some(v) => replaced && final(value)@ == v,
            None => !replaced && final(value)@ == old(value)@,
        },
    decreases keys@.len() - from,
{
    if from == keys.len() {
        proof {
            assert(keys_view(keys@).skip(from as int).len() == 0);
        }
        *value = replacement;
        return true;
    }
    let ghost rest = keys_view(keys@).skip(from as int);
    let ghost before = *value;
    proof {
        assert(rest[0] == keys@[from as int]@);
        assert(rest.drop_first() =~= keys_view(keys@).skip(from + 1));
    }
    match value {
        JsonValue::Object(entries) => {
            let ghost old_entries = entries@;
            let ghost views = entry_views(old_entries, old_entries.len());
            proof {
                lemma_entry_views(old_entries, old_entries.len());
                assert(before@ == JsonView::Object(views));
            }
            match first_member_index(entries, keys[from]) {
                Some(index) => {
                    let entry = &mut entries[index];
                    let replaced = set_member_path(&mut entry.1, keys, from + 1, replacement);
                    proof {
                        let new_entries = entries@;
                        assert(new_entries == old_entries.update(index as int, (old_entries[index as int].0, new_entries[index as int].1)));
                        lemma_entry_views(new_entries, new_entries.len());
                        assert(views[index as int].1 == old_entries[index as int].1@);
                        if replaced {
                            assert(entry_views(new_entries, new_entries.len()) =~= views.update(
                                index as int,
                                (views[index as int].0, new_entries[index as int].1@),
                            ));
                        } else {
                            assert(entry_views(new_entries, new_entries.len()) =~= views);
                        }
                    }
                    replaced
                },
                None => false,
            }
        },
        _ => false,
    }
}

// ---------------------------------------------------------------------------
// Breaking a valid project document on purpose
// ---------------------------------------------------------------------------

/// A path of keys written as a JSON pointer, e.g. `/machine/event_count`.
pub open spec fn pointer_text(keys: Seq<Seq<char>>) -> Seq<char>
    decreases keys.len(),
{
    if keys.len() == 0 {
        Seq::empty()
    } else {
        pointer_text(keys.drop_last()) + "/"@ + keys.last()
    }
}

pub open spec fn pointer_error(keys: Seq<Seq<char>>) -> Seq<char> {
    "project snapshot JSON pointer "@ + pointer_text(keys) + " must exist"@
}

/// The document after replacing the value at `keys`, and whether that
/// value existed.
pub open spec fn set_outcome(value: JsonView, keys: Seq<Seq<char>>, replacement: JsonView) -> (JsonView, Result<(), Seq<char>>) {
    match with_member_at(value, keys, replacement) {
        Some(updated) => (updated, Ok(())),
        None => (value, Err(pointer_error(keys))),
    }
}

fn pointer_string(keys: &Vec<&str>) -> (text: String)
    ensures
        text@ == pointer_text(keys_view(keys@)),
{
    let mut text = String::new();
    let mut index: usize = 0;
    while index < keys.len()
        invariant
            index <= keys@.len(),
            text@ == pointer_text(keys_view(keys@).take(index as int)),
        decreases keys@.len() - index,
    {
        text.append("/");
        text.append(keys[index]);
        proof {
            let all = keys_view(keys@);
            assert(all.take(index + 1).drop_last() =~= all.take(index as int));
            assert(all.take(index + 1).last() == keys@[index as int]@);
        }
        index = index + 1;
    }
    proof {
        assert(keys_view(keys@).take(keys@.len() as int) =~= keys_view(keys@));
    }
    text
}

/// Replaces the value at `keys`, or says that there is none.
pub fn set_project_json_pointer(value: &mut JsonValue, keys: &Vec<&str>, replacement: JsonValue) -> (result: Result<(), String>)
    ensures
        final(value)@ == set_outcome(old(value)@, keys_view(keys@), replacement@).0,
        match set_outcome(old(value)@, keys_view(keys@), replacement@).1 {
            Ok(()) => result is Ok,
            Err(message) => result matches Err(e) && e@ == message,
        },
{
    proof {
        assert(keys_view(keys@).skip(0) =~= keys_view(keys@));
    }
    if set_member_path(value, keys, 0, replacement) {
        Ok(())
    } else {
        let mut message = "project snapshot JSON pointer ".to_owned();
        message.append(pointer_string(keys).as_str());
        message.append(" must exist");
        Err(message)
    }
}

pub const MUTATION_PAYLOAD: &'static str = "rights-unsafe fixture mutation payload";

/// The members of an object after inserting `key`: an existing member of
/// that name takes the value, otherwise the member is added at the end.
pub open spec fn inserted(entries: Seq<(Seq<char>, JsonView)>, key: Seq<char>, member: JsonView) -> Seq<(Seq<char>, JsonView)> {
    match first_key_index(entries, key, 0) {
        Some(i) => entries.update(i as int, (key, member)),
        None => entries.push((key, member)),
    }
}

/// What a mutation does to a project document, and the error it stops with.
/// A mutation that stops with an error may already have changed the document.
pub open spec fn mutation_outcome(value: JsonView, mutation: ProjectJsonMutation) -> (JsonView, Result<(), Seq<char>>) {
    match mutation {
        ProjectJsonMutation::UnsupportedVersion { version } => set_outcome(
            value,
            seq!["version"@],
            JsonView::Number(decimal(version as nat)),
        ),
        ProjectJsonMutation::InvalidRightsBoundary { rights_boundary } => set_outcome(
            value,
            seq!["rights_boundary"@],
            JsonView::Text(rights_boundary@),
        ),
        ProjectJsonMutation::DuplicateFirstPadAssignment => match member_at(
            value,
            seq!["program"@, "pad_assignments"@],
        ) {
            Some(JsonView::Array(items)) => if items.len() == 0 {
                (value, Err("program.pad_assignments must not be empty"@))
            } else {
                set_outcome(value, seq!["program"@, "pad_assignments"@], JsonView::Array(items.push(items[0])))
            },
            _ => (value, Err("program.pad_assignments must be an array"@)),
        },
        ProjectJsonMutation::UnknownRootField { field } => match value {
            JsonView::Object(entries) => (
                JsonView::Object(inserted(entries, field@, JsonView::Text(MUTATION_PAYLOAD@))),
                Ok(()),
            ),
            _ => (value, Err("project snapshot root must be an object"@)),
        },
        ProjectJsonMutation::EventCountLessThanRecordedEvents => match member_at(
            value,
            seq!["sequence"@, "recorded_events"@],
        ) {
            Some(JsonView::Array(items)) => if items.len() == 0 {
                (value, Err("sequence.recorded_events must not be empty for this mutation"@))
            } else {
                set_outcome(
                    value,
                    seq!["machine"@, "event_count"@],
                    JsonView::Number(decimal((items.len() - 1) as nat)),
                )
            },
            _ => (value, Err("sequence.recorded_events must be an array"@)),
        },
        ProjectJsonMutation::LastPlaybackWithZeroEventCount => match member_at(
            value,
            seq!["machine"@, "last_playback"@],
        ) {
            None => (value, Err("machine.last_playback must be present for this mutation"@)),
            Some(JsonView::Null) => (value, Err("machine.last_playback must be present for this mutation"@)),
            Some(_) => {
                let (first, result) = set_outcome(value, seq!["machine"@, "event_count"@], JsonView::Number("0"@));
                match result {
                    Err(message) => (first, Err(message)),
                    Ok(()) => set_outcome(first, seq!["sequence"@, "recorded_events"@], JsonView::Array(Seq::empty())),
                }
            },
        },
    }
}

/// The result of a mutation as the exec functions report it.
pub open spec fn reported(result: Result<(), String>, expected: Result<(), Seq<char>>) -> bool {
    match expected {
        Ok(()) => result is Ok,
        Err(message) => result matches Err(e) && e@ == message,
    }
}

fn set_version(value: &mut JsonValue, version: u16) -> (result: Result<(), String>)
    ensures
        final(value)@ == set_outcome(old(value)@, seq!["version"@], JsonView::Number(decimal(version as nat))).0,
        reported(result, set_outcome(old(value)@, seq!["version"@], JsonView::Number(decimal(version as nat))).1),
{
    let keys = vec!["version"];
    proof {
        assert(keys_view(keys@) =~= seq!["version"@]);
    }
    let number = JsonValue::Number(decimal_text(version as u64));
    set_project_json_pointer(value, &keys, number)
}

fn set_rights_boundary(value: &mut JsonValue, rights_boundary: &String) -> (result: Result<(), String>)
    ensures
        final(value)@ == set_outcome(old(value)@, seq!["rights_boundary"@], JsonView::Text(rights_boundary@)).0,
        reported(result, set_outcome(old(value)@, seq!["rights_boundary"@], JsonView::Text(rights_boundary@)).1),
{
    let keys = vec!["rights_boundary"];
    proof {
        assert(keys_view(keys@) =~= seq!["rights_boundary"@]);
    }
    set_project_json_pointer(value, &keys, JsonValue::Text(rights_boundary.clone()))
}

fn duplicate_first_pad_assignment(value: &mut JsonValue) -> (result: Result<(), String>)
    ensures
        final(value)@ == mutation_outcome(old(value)@, ProjectJsonMutation::DuplicateFirstPadAssignment).0,
        reported(result, mutation_outcome(old(value)@, ProjectJsonMutation::DuplicateFirstPadAssignment).1),
{
    let keys = vec!["program", "pad_assignments"];
    proof {
        assert(keys_view(keys@).skip(0) =~= keys_view(keys@));
        assert(keys_view(keys@) =~= seq!["program"@, "pad_assignments"@]);
    }
    let copies = match member_at_ref(value, &keys, 0) {
        Some(JsonValue::Array(items)) => {
            proof {
                lemma_item_views(items@, items@.len());
            }
            if items.len() == 0 {
                return Err("program.pad_assignments must not be empty".to_owned());
            }
            let mut copies: Vec<JsonValue> = Vec::new();
            let mut index: usize = 0;
            while index < items.len()
                invariant
                    index <= items@.len(),
                    copies@.len() == index,
                    forall|i: int| 0 <= i < index ==> json_view(#[trigger] copies@[i]) == json_view(items@[i]),
                decreases items@.len() - index,
            {
                copies.push(items[index].duplicate());
                index = index + 1;
            }
            copies.push(items[0].duplicate());
            proof {
                lemma_item_views(items@, items@.len());
                lemma_item_views(copies@, copies@.len());
                let old_views = item_views(items@, items@.len());
                assert(item_views(copies@, copies@.len()) =~= old_views.push(old_views[0]));
            }
            copies
        },
        _ => {
            return Err("program.pad_assignments must be an array".to_owned());
        },
    };
    let replacement = JsonValue::Array(copies);
    proof {
        lemma_member_can_be_replaced(old(value)@, keys_view(keys@), replacement@);
    }
    let replaced = set_member_path(value, &keys, 0, replacement);
    Ok(())
}

fn insert_unknown_root_field(value: &mut JsonValue, field: &String) -> (result: Result<(), String>)
    ensures
        final(value)@ == mutation_outcome(
            old(value)@,
            ProjectJsonMutation::UnknownRootField { field: *field },
        ).0,
        reported(result, mutation_outcome(old(value)@, ProjectJsonMutation::UnknownRootField { field: *field }).1),
{
    match value {
        JsonValue::Object(entries) => {
            let ghost old_entries = entries@;
            let ghost views = entry_views(old_entries, old_entries.len());
            proof {
                lemma_entry_views(old_entries, old_entries.len());
            }
            let payload = JsonValue::Text(MUTATION_PAYLOAD.to_owned());
            match first_member_index(entries, field.as_str()) {
                Some(index) => {
                    let entry = &mut entries[index];
                    entry.1 = payload;
                    proof {
                        let new_entries = entries@;
                        lemma_entry_views(new_entries, new_entries.len());
                        lemma_first_key_index(views, field@, 0);
                        assert(entry_views(new_entries, new_entries.len()) =~= inserted(
                            views,
                            field@,
                            JsonView::Text(MUTATION_PAYLOAD@),
                        ));
                    }
                },
                None => {
                    entries.push((field.clone(), payload));
                    proof {
                        let new_entries = entries@;
                        lemma_entry_views(new_entries, new_entries.len());
                        assert(entry_views(new_entries, new_entries.len()) =~= inserted(
                            views,
                            field@,
                            JsonView::Text(MUTATION_PAYLOAD@),
                        ));
                    }
                },
            }
            Ok(())
        },
        _ => Err("project snapshot root must be an object".to_owned()),
    }
}

fn lower_event_count(value: &mut JsonValue) -> (result: Result<(), String>)
    ensures
        final(value)@ == mutation_outcome(old(value)@, ProjectJsonMutation::EventCountLessThanRecordedEvents).0,
        reported(result, mutation_outcome(old(value)@, ProjectJsonMutation::EventCountLessThanRecordedEvents).1),
{
    let events = vec!["sequence", "recorded_events"];
    let count_keys = vec!["machine", "event_count"];
    proof {
        assert(keys_view(events@).skip(0) =~= keys_view(events@));
        assert(keys_view(events@) =~= seq!["sequence"@, "recorded_events"@]);
        assert(keys_view(count_keys@) =~= seq!["machine"@, "event_count"@]);
    }
    let recorded_event_count: usize = match member_at_ref(value, &events, 0) {
        Some(JsonValue::Array(items)) => {
            proof {
                lemma_item_views(items@, items@.len());
            }
            items.len()
        },
        _ => {
            return Err("sequence.recorded_events must be an array".to_owned());
        },
    };
    if recorded_event_count == 0 {
        return Err("sequence.recorded_events must not be empty for this mutation".to_owned());
    }
    let number = JsonValue::Number(decimal_text((recorded_event_count - 1) as u64));
    set_project_json_pointer(value, &count_keys, number)
}

fn zero_event_count_with_last_playback(value: &mut JsonValue) -> (result: Result<(), String>)
    ensures
        final(value)@ == mutation_outcome(old(value)@, ProjectJsonMutation::LastPlaybackWithZeroEventCount).0,
        reported(result, mutation_outcome(old(value)@, ProjectJsonMutation::LastPlaybackWithZeroEventCount).1),
{
    let playback = vec!["machine", "last_playback"];
    let count_keys = vec!["machine", "event_count"];
    let events = vec!["sequence", "recorded_events"];
    proof {
        assert(keys_view(playback@).skip(0) =~= keys_view(playback@));
        assert(keys_view(playback@) =~= seq!["machine"@, "last_playback"@]);
        assert(keys_view(count_keys@) =~= seq!["machine"@, "event_count"@]);
        assert(keys_view(events@) =~= seq!["sequence"@, "recorded_events"@]);
    }
    let present = match member_at_ref(value, &playback, 0) {
        Some(JsonValue::Null) => false,
        Some(_) => true,
        None => false,
    };
    if !present {
        return Err("machine.last_playback must be present for this mutation".to_owned());
    }
    let zero = JsonValue::Number("0".to_owned());
    let first = set_project_json_pointer(value, &count_keys, zero);
    if first.is_err() {
        return first;
    }
    set_project_json_pointer(value, &events, JsonValue::Array(Vec::new()))
}

/// Applies a mutation to a project document, as a refusal case prescribes.
pub fn apply_project_json_mutation(value: &mut JsonValue, mutation: &ProjectJsonMutation) -> (result: Result<(), String>)
    ensures
        final(value)@ == mutation_outcome(old(value)@, *mutation).0,
        reported(result, mutation_outcome(old(value)@, *mutation).1),
{
    match mutation {
        ProjectJsonMutation::UnsupportedVersion { version } => set_version(value, *version),
        ProjectJsonMutation::InvalidRightsBoundary { rights_boundary } => set_rights_boundary(value, rights_boundary),
        ProjectJsonMutation::DuplicateFirstPadAssignment => duplicate_first_pad_assignment(value),
        ProjectJsonMutation::UnknownRootField { field } => insert_unknown_root_field(value, field),
        ProjectJsonMutation::EventCountLessThanRecordedEvents => lower_event_count(value),
        ProjectJsonMutation::LastPlaybackWithZeroEventCount => zero_event_count_with_last_playback(value),
    }
}

/// Keys that would carry audio or sample locations into a project file.
pub open spec fn forbidden_key(key: Seq<char>) -> bool {
    ||| key == "audio_bytes"@
    ||| key == "sample_file_contents"@
    ||| key == "file_path"@
    ||| key == "sample_file_path"@
}

/// The path of an object member: `key` at the root, `path.key` below it.
pub open spec fn member_path(path: Seq<char>, key: Seq<char>) -> Seq<char> {
    if path.len() == 0 {
        key
    } else {
        path + "."@ + key
    }
}

/// The path of an array element: `path[index]`.
pub open spec fn element_path(path: Seq<char>, index: nat) -> Seq<char> {
    path + "["@ + decimal(index) + "]"@
}

/// The paths, below `path`, of every member whose key is forbidden, in
/// document order: a member's own path comes before those inside it.
pub open spec fn forbidden_key_paths(value: JsonValue, path: Seq<char>) -> Seq<Seq<char>>
    decreases value, 0nat,
{
    match value {
        JsonValue::Object(entries) => entry_forbidden_paths(entries@, path, entries@.len()),
        JsonValue::Array(items) => item_forbidden_paths(items@, path, items@.len()),
        _ => Seq::empty(),
    }
}

/// `forbidden_paths` over the first `n` members of an object.
pub open spec fn entry_forbidden_paths(entries: Seq<(String, JsonValue)>, path: Seq<char>, n: nat) -> Seq<Seq<char>>
    decreases entries, n,
{
    if n == 0 || n > entries.len() {
        Seq::empty()
    } else {
        let key = entries[n - 1].0@;
        let here = member_path(path, key);
        entry_forbidden_paths(entries, path, (n - 1) as nat) + (if forbidden_key(key) {
            seq![here]
        } else {
            Seq::empty()
        }) + forbidden_key_paths(entries[n - 1].1, here)
    }
}

/// `forbidden_paths` over the first `n` elements of an array.
pub open spec fn item_forbidden_paths(items: Seq<JsonValue>, path: Seq<char>, n: nat) -> Seq<Seq<char>>
    decreases items, n,
{
    if n == 0 || n > items.len() {
        Seq::empty()
    } else {
        item_forbidden_paths(items, path, (n - 1) as nat) + forbidden_key_paths(
            items[n - 1],
            element_path(path, (n - 1) as nat),
        )
    }
}

/// `forbidden_key_paths` over a document's view.
pub open spec fn view_forbidden_paths(value: JsonView, path: Seq<char>) -> Seq<Seq<char>>
    decreases value, 0nat,
{
    match value {
        JsonView::Object(entries) => view_entry_paths(entries, path, entries.len()),
        JsonView::Array(items) => view_item_paths(items, path, items.len()),
        _ => Seq::empty(),
    }
}

pub open spec fn view_entry_paths(entries: Seq<(Seq<char>, JsonView)>, path: Seq<char>, n: nat) -> Seq<Seq<char>>
    decreases entries, n,
{
    if n == 0 || n > entries.len() {
        Seq::empty()
    } else {
        let key = entries[n - 1].0;
        let here = member_path(path, key);
        view_entry_paths(entries, path, (n - 1) as nat) + (if forbidden_key(key) {
            seq![here]
        } else {
            Seq::empty()
        }) + view_forbidden_paths(entries[n - 1].1, here)
    }
}

pub open spec fn view_item_paths(items: Seq<JsonView>, path: Seq<char>, n: nat) -> Seq<Seq<char>>
    decreases items, n,
{
    if n == 0 || n > items.len() {
        Seq::empty()
    } else {
        view_item_paths(items, path, (n - 1) as nat) + view_forbidden_paths(
            items[n - 1],
            element_path(path, (n - 1) as nat),
        )
    }
}

/// The paths collected from a document are those of its view.
pub proof fn lemma_forbidden_paths_view(value: JsonValue, path: Seq<char>)
    ensures
        forbidden_key_paths(value, path) == view_forbidden_paths(value@, path),
    decreases value, 0nat,
{
    match value {
        JsonValue::Object(entries) => {
            lemma_entry_views(entries@, entries@.len());
            lemma_entry_paths_view(entries@, path, entries@.len());
        },
        JsonValue::Array(items) => {
            lemma_item_views(items@, items@.len());
            lemma_item_paths_view(items@, path, items@.len());
        },
        _ => {},
    }
}

proof fn lemma_entry_paths_view(entries: Seq<(String, JsonValue)>, path: Seq<char>, n: nat)
    requires
        n <= entries.len(),
    ensures
        entry_forbidden_paths(entries, path, n) == view_entry_paths(entry_views(entries, entries.len()), path, n),
    decreases entries, n,
{
    lemma_entry_views(entries, entries.len());
    if n > 0 {
        lemma_entry_paths_view(entries, path, (n - 1) as nat);
        lemma_forbidden_paths_view(entries[n - 1].1, member_path(path, entries[n - 1].0@));
    }
}

proof fn lemma_item_paths_view(items: Seq<JsonValue>, path: Seq<char>, n: nat)
    requires
        n <= items.len(),
    ensures
        item_forbidden_paths(items, path, n) == view_item_paths(item_views(items, items.len()), path, n),
    decreases items, n,
{
    lemma_item_views(items, items.len());
    if n > 0 {
        lemma_item_paths_view(items, path, (n - 1) as nat);
        lemma_forbidden_paths_view(items[n - 1], element_path(path, (n - 1) as nat));
    }
}

/// Some member, at any depth, has a forbidden key.
pub open spec fn contains_forbidden_key(value: JsonView) -> bool
    decreases value, 0nat,
{
    match value {
        JsonView::Object(entries) => entries_contain_forbidden_key(entries, entries.len()),
        JsonView::Array(items) => items_contain_forbidden_key(items, items.len()),
        _ => false,
    }
}

pub open spec fn entries_contain_forbidden_key(entries: Seq<(Seq<char>, JsonView)>, n: nat) -> bool
    decreases entries, n,
{
    if n == 0 || n > entries.len() {
        false
    } else {
        entries_contain_forbidden_key(entries, (n - 1) as nat) || forbidden_key(entries[n - 1].0)
            || contains_forbidden_key(entries[n - 1].1)
    }
}

pub open spec fn items_contain_forbidden_key(items: Seq<JsonView>, n: nat) -> bool
    decreases items, n,
{
    if n == 0 || n > items.len() {
        false
    } else {
        items_contain_forbidden_key(items, (n - 1) as nat) || contains_forbidden_key(items[n - 1])
    }
}

/// The collected paths are empty exactly when no forbidden key occurs.
pub proof fn lemma_no_paths_iff_no_forbidden_key(value: JsonView, path: Seq<char>)
    ensures
        view_forbidden_paths(value, path).len() == 0 <==> !contains_forbidden_key(value),
    decreases value, 0nat,
{
    match value {
        JsonView::Object(entries) => lemma_entry_paths_empty(entries, path, entries.len()),
        JsonView::Array(items) => lemma_item_paths_empty(items, path, items.len()),
        _ => {},
    }
}

proof fn lemma_entry_paths_empty(entries: Seq<(Seq<char>, JsonView)>, path: Seq<char>, n: nat)
    ensures
        view_entry_paths(entries, path, n).len() == 0 <==> !entries_contain_forbidden_key(entries, n),
    decreases entries, n,
{
    if n > 0 && n <= entries.len() {
        lemma_entry_paths_empty(entries, path, (n - 1) as nat);
        lemma_no_paths_iff_no_forbidden_key(entries[n - 1].1, member_path(path, entries[n - 1].0));
    }
}

proof fn lemma_item_paths_empty(items: Seq<JsonView>, path: Seq<char>, n: nat)
    ensures
        view_item_paths(items, path, n).len() == 0 <==> !items_contain_forbidden_key(items, n),
    decreases items, n,
{
    if n > 0 && n <= items.len() {
        lemma_item_paths_empty(items, path, (n - 1) as nat);
        lemma_no_paths_iff_no_forbidden_key(items[n - 1], element_path(path, (n - 1) as nat));
    }
}

pub fn is_forbidden_project_json_key(key: &str) -> (forbidden: bool)
    ensures
        forbidden == forbidden_key(key@),
{
    let key = key.to_owned();
    let audio_bytes = "audio_bytes".to_owned();
    let contents = "sample_file_contents".to_owned();
    let file_path = "file_path".to_owned();
    let sample_path = "sample_file_path".to_owned();
    key == audio_bytes || key == contents || key == file_path || key == sample_path
}

/// Appends to `forbidden_paths` the path of every forbidden key in `value`,
/// paths starting from `path`.
pub fn collect_forbidden_project_json_keys(value: &JsonValue, path: &str, forbidden_paths: &mut Vec<String>)
    ensures
        texts_view(final(forbidden_paths)@) == texts_view(old(forbidden_paths)@) + forbidden_key_paths(
            *value,
            path@,
        ),
        texts_view(final(forbidden_paths)@) == texts_view(old(forbidden_paths)@) + view_forbidden_paths(
            value@,
            path@,
        ),
    decreases value,
{
    proof {
        lemma_forbidden_paths_view(*value, path@);
    }
    let ghost start = texts_view(forbidden_paths@);
    match value {
        JsonValue::Object(entries) => {
            let mut index: usize = 0;
            while index < entries.len()
                invariant
                    index <= entries@.len(),
                    *value == JsonValue::Object(*entries),
                    texts_view(forbidden_paths@) == start + entry_forbidden_paths(entries@, path@, index as nat),
                decreases entries@.len() - index,
            {
                let entry = &entries[index];
                proof {
                    assert(decreases_to!(*value => (*value)->Object_0));
                    assert(decreases_to!(*entries => entries@));
                    assert(decreases_to!(entries@ => entries@[index as int]));
                    assert(decreases_to!(entries@[index as int] => entries@[index as int].1));
                }
                let mut here = path.to_owned();
                if !path.is_empty() {
                    here.append(".");
                }
                here.append(entry.0.as_str());
                let ghost before = texts_view(forbidden_paths@);
                let ghost own: Seq<Seq<char>> = if forbidden_key(entry.0@) {
                    seq![here@]
                } else {
                    Seq::empty()
                };
                if is_forbidden_project_json_key(entry.0.as_str()) {
                    forbidden_paths.push(here.clone());
                }
                proof {
                    assert(here@ == member_path(path@, entry.0@));
                    assert(texts_view(forbidden_paths@) =~= before + own);
                }
                let ghost middle = texts_view(forbidden_paths@);
                collect_forbidden_project_json_keys(&entry.1, here.as_str(), forbidden_paths);
                proof {
                    let below = forbidden_key_paths(entry.1, here@);
                    let done = entry_forbidden_paths(entries@, path@, index as nat);
                    lemma_concat_associative(start, done, own);
                    lemma_concat_associative(start, done + own, below);
                    assert(entries@[index as int] == *entry);
                    assert(entry_forbidden_paths(entries@, path@, (index + 1) as nat) == done + own + below);
                }
                index = index + 1;
            }
        },
        JsonValue::Array(items) => {
            let mut index: usize = 0;
            while index < items.len()
                invariant
                    index <= items@.len(),
                    *value == JsonValue::Array(*items),
                    texts_view(forbidden_paths@) == start + item_forbidden_paths(items@, path@, index as nat),
                decreases items@.len() - index,
            {
                proof {
                    assert(decreases_to!(*value => (*value)->Array_0));
                    assert(decreases_to!(*items => items@));
                    assert(decreases_to!(items@ => items@[index as int]));
                }
                let mut here = path.to_owned();
                here.append("[");
                push_decimal(&mut here, index as u64);
                here.append("]");
                proof {
                    assert(here@ =~= element_path(path@, index as nat));
                }
                collect_forbidden_project_json_keys(&items[index], here.as_str(), forbidden_paths);
                proof {
                    let done = item_forbidden_paths(items@, path@, index as nat);
                    lemma_concat_associative(start, done, forbidden_key_paths(items@[index as int], here@));
                }
                index = index + 1;
            }
        },
        _ => {
            proof {
                assert(texts_view(forbidden_paths@) =~= start + forbidden_key_paths(*value, path@));
            }
        },
    }
}

/// The text of a root object's member `key`, when the root is an object that
/// has that member and the member is a string. The first such member counts.
pub open spec fn root_text_member(value: JsonValue, key: Seq<char>) -> Option<Seq<char>> {
    match value {
        JsonValue::Object(entries) => first_member_text(entries@, key, 0),
        _ => None,
    }
}

pub open spec fn first_member_text(entries: Seq<(String, JsonValue)>, key: Seq<char>, from: nat) -> Option<Seq<char>>
    decreases entries.len() - from,
{
    if from >= entries.len() {
        None
    } else if entries[from as int].0@ == key {
        match entries[from as int].1 {
            JsonValue::Text(text) => Some(text@),
            _ => None,
        }
    } else {
        first_member_text(entries, key, from + 1)
    }
}

fn root_text_member_of<'a>(value: &'a JsonValue, key: &str) -> (text: Option<&'a str>)
    ensures
        match text {
            Some(t) => root_text_member(*value, key@) == Some(t@),
            None => root_text_member(*value, key@) is None,
        },
{
    match value {
        JsonValue::Object(entries) => {
            let wanted = key.to_owned();
            let mut index: usize = 0;
            while index < entries.len()
                invariant
                    index <= entries@.len(),
                    *value == JsonValue::Object(*entries),
                    wanted@ == key@,
                    first_member_text(entries@, key@, 0) == first_member_text(entries@, key@, index as nat),
                decreases entries@.len() - index,
            {
                if entries[index].0 == wanted {
                    return match &entries[index].1 {
                        JsonValue::Text(text) => Some(text.as_str()),
                        _ => None,
                    };
                }
                index = index + 1;
            }
            None
        },
        _ => None,
    }
}

pub open spec fn boundary_mismatch_line(rights_boundary: Option<Seq<char>>) -> Seq<char> {
    "project_round_trip.file.saved_json rights_boundary mismatch: expected "@ + debug_quoted(
        PROJECT_FILE_RIGHTS_BOUNDARY@,
    ) + ", got "@ + match rights_boundary {
        Some(text) => "Some("@ + debug_quoted(text) + ")"@,
        None => "None"@,
    }
}

pub open spec fn unsafe_fields_line(paths: Seq<Seq<char>>) -> Seq<char> {
    "project_round_trip.file.saved_json contains rights-unsafe fields: "@ + debug_list(
        paths.map_values(|p: Seq<char>| debug_quoted(p)),
    )
}

/// `json_boundary_report` over the parsed value itself, as the checking
/// code walks it.
pub open spec fn value_boundary_report(parsed: Result<JsonValue, Seq<char>>) -> Seq<Seq<char>> {
    match parsed {
        Err(message) => seq!["project_round_trip.file.saved_json parse error: "@ + message],
        Ok(value) => {
            let rights_boundary = root_text_member(value, "rights_boundary"@);
            let paths = forbidden_key_paths(value, Seq::empty());
            (if rights_boundary == Some(PROJECT_FILE_RIGHTS_BOUNDARY@) {
                Seq::<Seq<char>>::empty()
            } else {
                seq![boundary_mismatch_line(rights_boundary)]
            }) + (if paths.len() == 0 {
                Seq::<Seq<char>>::empty()
            } else {
                seq![unsafe_fields_line(paths)]
            })
        },
    }
}

/// The text of a root object's first member named `key`, when that member
/// is a string.
pub open spec fn view_root_text_member(value: JsonView, key: Seq<char>) -> Option<Seq<char>> {
    match value {
        JsonView::Object(entries) => match first_key_index(entries, key, 0) {
            Some(i) => match entries[i as int].1 {
                JsonView::Text(text) => Some(text),
                _ => None,
            },
            None => None,
        },
        _ => None,
    }
}

proof fn lemma_first_member_text_view(entries: Seq<(String, JsonValue)>, key: Seq<char>, from: nat)
    ensures
        first_member_text(entries, key, from) == (match first_key_index(
            entry_views(entries, entries.len()),
            key,
            from,
        ) {
            Some(i) => match entry_views(entries, entries.len())[i as int].1 {
                JsonView::Text(text) => Some(text),
                _ => None,
            },
            None => None,
        }),
    decreases entries.len() - from,
{
    lemma_entry_views(entries, entries.len());
    if from < entries.len() && entries[from as int].0@ != key {
        lemma_first_member_text_view(entries, key, from + 1);
    }
}

/// The report on a saved project file, given what parsing its JSON gave:
/// a parse error, or a wrong or missing `rights_boundary`, and any
/// forbidden keys, each make one line.
pub open spec fn json_boundary_report(parsed: Result<JsonView, Seq<char>>) -> Seq<Seq<char>> {
    match parsed {
        Err(message) => seq!["project_round_trip.file.saved_json parse error: "@ + message],
        Ok(value) => {
            let rights_boundary = view_root_text_member(value, "rights_boundary"@);
            let paths = view_forbidden_paths(value, Seq::empty());
            (if rights_boundary == Some(PROJECT_FILE_RIGHTS_BOUNDARY@) {
                Seq::<Seq<char>>::empty()
            } else {
                seq![boundary_mismatch_line(rights_boundary)]
            }) + (if paths.len() == 0 {
                Seq::<Seq<char>>::empty()
            } else {
                seq![unsafe_fields_line(paths)]
            })
        },
    }
}

pub open spec fn json_result_view(parsed: Result<JsonValue, String>) -> Result<JsonView, Seq<char>> {
    match parsed {
        Ok(value) => Ok(value@),
        Err(message) => Err(message@),
    }
}

proof fn lemma_boundary_report_view(parsed: Result<JsonValue, String>)
    ensures
        value_boundary_report(
            match parsed {
                Ok(value) => Ok(value),
                Err(message) => Err(message@),
            },
        ) == json_boundary_report(json_result_view(parsed)),
{
    if let Ok(value) = parsed {
        lemma_forbidden_paths_view(value, Seq::empty());
        if let JsonValue::Object(entries) = value {
            lemma_first_member_text_view(entries@, "rights_boundary"@, 0);
        }
    }
}

/// Checks the rights boundary of a saved project file from the outcome of
/// parsing its JSON: the parsed document, or the parser's error message.
pub fn validate_parsed_project_json_boundary(details: &mut Vec<String>, parsed: &Result<JsonValue, String>)
    ensures
        texts_view(final(details)@) == texts_view(old(details)@) + json_boundary_report(json_result_view(*parsed)),
{
    proof {
        lemma_boundary_report_view(*parsed);
    }
    check_parsed_boundary(details, parsed);
}

fn check_parsed_boundary(details: &mut Vec<String>, parsed: &Result<JsonValue, String>)
    ensures
        texts_view(final(details)@) == texts_view(old(details)@) + value_boundary_report(
            match parsed {
                Ok(value) => Ok(*value),
                Err(message) => Err(message@),
            },
        ),
{
    let ghost start = texts_view(details@);
    match parsed {
        Ok(value) => {
            let rights_boundary = root_text_member_of(value, "rights_boundary");
            let ghost boundary_view: Option<Seq<char>> = match rights_boundary {
                Some(t) => Some(t@),
                None => None,
            };
            let expected = PROJECT_FILE_RIGHTS_BOUNDARY.to_owned();
            let matches = match rights_boundary {
                Some(text) => text.to_owned() == expected,
                None => false,
            };
            let ghost first: Seq<Seq<char>> = if boundary_view == Some(PROJECT_FILE_RIGHTS_BOUNDARY@) {
                Seq::empty()
            } else {
                seq![boundary_mismatch_line(boundary_view)]
            };
            if !matches {
                let mut line = "project_round_trip.file.saved_json rights_boundary mismatch: expected ".to_owned();
                push_debug_quoted(&mut line, PROJECT_FILE_RIGHTS_BOUNDARY);
                line.append(", got ");
                match rights_boundary {
                    Some(text) => {
                        line.append("Some(");
                        push_debug_quoted(&mut line, text);
                        line.append(")");
                    },
                    None => line.append("None"),
                }
                proof {
                    assert(line@ =~= boundary_mismatch_line(boundary_view));
                }
                details.push(line);
            }
            proof {
                assert(texts_view(details@) =~= start + first);
            }
            let mut paths: Vec<String> = Vec::new();
            collect_forbidden_project_json_keys(value, "", &mut paths);
            proof {
                reveal_strlit("");
                assert(""@ =~= Seq::<char>::empty());
                assert(texts_view(paths@) =~= forbidden_key_paths(*value, Seq::empty()));
            }
            if paths.len() > 0 {
                let mut items: Vec<String> = Vec::new();
                let mut index: usize = 0;
                while index < paths.len()
                    invariant
                        index <= paths@.len(),
                        texts_view(items@) == texts_view(paths@).take(index as int).map_values(
                            |p: Seq<char>| debug_quoted(p),
                        ),
                    decreases paths@.len() - index,
                {
                    let mut item = String::new();
                    push_debug_quoted(&mut item, paths[index].as_str());
                    let ghost before = items@;
                    items.push(item);
                    proof {
                        assert(texts_view(paths@).take(index + 1) =~= texts_view(paths@).take(index as int).push(
                            paths@[index as int]@,
                        ));
                        assert(texts_view(items@) =~= texts_view(before).push(item@));
                        assert(texts_view(items@) =~= texts_view(paths@).take(index + 1).map_values(
                            |p: Seq<char>| debug_quoted(p),
                        ));
                    }
                    index = index + 1;
                }
                proof {
                    assert(texts_view(paths@).take(paths@.len() as int) =~= texts_view(paths@));
                }
                let mut line = "project_round_trip.file.saved_json contains rights-unsafe fields: ".to_owned();
                push_debug_list(&mut line, &items);
                details.push(line);
                proof {
                    assert(line@ =~= unsafe_fields_line(texts_view(paths@)));
                }
            }
            proof {
                assert(texts_view(final(details)@) =~= start + value_boundary_report(Ok(*value)));
            }
        },
        Err(message) => {
            let mut line = "project_round_trip.file.saved_json parse error: ".to_owned();
            line.append(message.as_str());
            details.push(line);
            proof {
                assert(texts_view(final(details)@) =~= start + value_boundary_report(Err(message@)));
            }
        },
    }
}


// ---------------------------------------------------------------------------
// Parsing saved project text
// ---------------------------------------------------------------------------

#[verifier::external_type_specification]
#[verifier::external_body]
pub struct ExSerdeJsonValue(serde_json::Value);

/// What `serde_json::from_str::<serde_json::Value>` makes of a text, in this
/// library's terms: the document, or the parser's error message.
pub uninterp spec fn parsed_json(text: Seq<char>) -> Result<JsonView, Seq<char>>;

/// Moves a `serde_json::Value` into the library's form, one arm per variant:
/// numbers keep the text serde_json writes for them, object members the order
/// serde_json's map hands them out in.
#[verifier::external_body]
fn json_value_from(value: serde_json::Value) -> JsonValue {
    match value {
        serde_json::Value::Null => JsonValue::Null,
        serde_json::Value::Bool(flag) => JsonValue::Bool(flag),
        serde_json::Value::Number(number) => JsonValue::Number(number.to_string()),
        serde_json::Value::String(text) => JsonValue::Text(text),
        serde_json::Value::Array(items) => JsonValue::Array(items.into_iter().map(json_value_from).collect()),
        serde_json::Value::Object(members) => JsonValue::Object(
            members.into_iter().map(|(key, member)| (key, json_value_from(member))).collect(),
        ),
    }
}

/// Calls `serde_json::from_str::<serde_json::Value>` on the text and returns
/// the document in the library's form, or the error's message. Claims that
/// the result is `parsed_json(text@)`: a function of the text alone; what
/// serde_json accepts and how it words its errors is not stated here.
#[verifier::external_body]
fn parse_json_text(text: &str) -> (parsed: Result<JsonValue, String>)
    ensures
        json_result_view(parsed) == parsed_json(text@),
{
    match serde_json::from_str::<serde_json::Value>(text) {
        Ok(value) => Ok(json_value_from(value)),
        Err(error) => Err(error.to_string()),
    }
}

/// Parses saved project JSON and checks its rights boundary.
pub fn validate_project_file_json_boundary(details: &mut Vec<String>, saved_json: &str)
    ensures
        texts_view(final(details)@) == texts_view(old(details)@) + json_boundary_report(parsed_json(saved_json@)),
{
    let parsed = parse_json_text(saved_json);
    validate_parsed_project_json_boundary(details, &parsed);
}

} // verus!
