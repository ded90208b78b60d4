//! The bank data of the plug-in: what is done with the bytes that the host hands over.

use vstd::prelude::*;

verus! {

/// The byte that opens a JSON object.
pub const LEFT_JSON_OBJECT_BRACE: u8 = 0x7b;

/// The bytes that are handed to the host as long as there is no session to save: the text
/// `not-ready-yet`.
pub open spec fn not_ready_yet() -> Seq<u8> {
    seq![0x6eu8, 0x6f, 0x74, 0x2d, 0x72, 0x65, 0x61, 0x64, 0x79, 0x2d, 0x79, 0x65, 0x74]
}

/// What is done with bank data.
#[derive(Copy, Clone, Debug, PartialEq, Eq, Structural)]
pub enum BankDataAction {
    /// The session is reset to its defaults.
    ResetToDefault,
    /// Nothing is done.
    Nothing,
    /// The data is kept until there is a session to load it into.
    KeepForLater,
    /// The session is restored from the JSON object that starts at `json_start`.
    Restore { json_start: usize },
    /// The data holds no JSON object.
    NoJsonFound,
}

/// The first left brace in `data` lies at `i`.
pub open spec fn is_first_brace(data: Seq<u8>, i: int) -> bool {
    &&& 0 <= i < data.len()
    &&& data[i] == LEFT_JSON_OBJECT_BRACE
    &&& forall|j: int| 0 <= j < i ==> data[j] != LEFT_JSON_OBJECT_BRACE
}

/// There is a left brace in `data`.
pub open spec fn has_brace(data: Seq<u8>) -> bool {
    exists|i: int| 0 <= i < data.len() && data[i] == LEFT_JSON_OBJECT_BRACE
}

fn is_not_ready_yet(data: &[u8]) -> (same: bool)
    ensures
        same == (data@ == not_ready_yet()),
{
    let marker: [u8; 13] = [
        0x6e,
        0x6f,
        0x74,
        0x2d,
        0x72,
        0x65,
        0x61,
        0x64,
        0x79,
        0x2d,
        0x79,
        0x65,
        0x74,
    ];
    assert(marker@ =~= not_ready_yet());
    if data.len() != 13 {
        return false;
    }
    let mut i: usize = 0;
    while i < 13
        invariant
            i <= 13,
            data@.len() == 13,
            marker@ == not_ready_yet(),
            forall|j: int| 0 <= j < i ==> data@[j] == marker@[j],
        decreases 13 - i,
    {
        if data[i] != marker[i] {
            return false;
        }
        i = i + 1;
    }
    assert(data@ =~= not_ready_yet());
    true
}

/// Returns the bytes that are handed to the host as long as there is no session to save.
pub fn not_ready_yet_data() -> (data: Vec<u8>)
    ensures
        data@ == not_ready_yet(),
{
    let mut data: Vec<u8> = Vec::new();
    data.push(0x6e);
    data.push(0x6f);
    data.push(0x74);
    data.push(0x2d);
    data.push(0x72);
    data.push(0x65);
    data.push(0x61);
    data.push(0x64);
    data.push(0x79);
    data.push(0x2d);
    data.push(0x79);
    data.push(0x65);
    data.push(0x74);
    assert(data@ =~= not_ready_yet());
    data
}

/// Returns what is done with bank data that the host wants to have loaded.
///
/// The marker that stands for "not ready yet" resets an existing session, since the host
/// then loads what was saved before there was anything to save. Without a session, other
/// data is kept for later. With a session, it is restored from the first JSON object in
/// the data, before which older versions saved binary data.
pub fn load_bank_data(data: &[u8], session_exists: bool) -> (action: BankDataAction)
    ensures
        data@ == not_ready_yet() && session_exists ==> action == BankDataAction::ResetToDefault,
        data@ == not_ready_yet() && !session_exists ==> action == BankDataAction::Nothing,
        data@ != not_ready_yet() && !session_exists ==> action == BankDataAction::KeepForLater,
        data@ != not_ready_yet() && session_exists ==> match action {
            BankDataAction::Restore { json_start } => is_first_brace(data@, json_start as int),
            BankDataAction::NoJsonFound => !has_brace(data@),
            _ => false,
        },
{
    if is_not_ready_yet(data) {
        if session_exists {
            return BankDataAction::ResetToDefault;
        }
        return BankDataAction::Nothing;
    }
    if !session_exists {
        return BankDataAction::KeepForLater;
    }
    let mut i: usize = 0;
    while i < data.len()
        invariant
            i <= data@.len(),
            session_exists,
            data@ != not_ready_yet(),
            forall|j: int| 0 <= j < i ==> data@[j] != LEFT_JSON_OBJECT_BRACE,
        decreases data@.len() - i,
    {
        if data[i] == LEFT_JSON_OBJECT_BRACE {
            return BankDataAction::Restore { json_start: i };
        }
        i = i + 1;
    }
    BankDataAction::NoJsonFound
}

} // verus!
