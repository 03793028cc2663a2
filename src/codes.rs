//! Host status codes and the set of codes that are replies rather than failures.
use vstd::prelude::*;

verus! {

/// A host status code.
pub type ASErr = i32;

/// Success.
pub const NO_ERR: ASErr = 0;

/// `'!MSG'`: the adapter did not route the message.
pub const UNHANDLED_MSG_ERR: ASErr = 0x214d_5347;

/// `'!MEM'`: out of memory.
pub const OUT_OF_MEMORY_ERR: ASErr = 0x214d_454d;

/// `'CANT'`: a request the host could not have made.
pub const CANT_HAPPEN_ERR: ASErr = 0x4341_4e54;

/// `'?FRM'`: unknown file format.
pub const UNKNOWN_FORMAT_ERR: ASErr = 0x3f46_524d;

/// `'RFSE'`: plug-in group refuses the operation.
pub const REFUSE_PLUGIN_GROUP_REPLY: ASErr = 0x5246_5345;

/// `'AFTR'`: plug-in group wants the message after the edit.
pub const WANTS_AFTER_MSG_PLUGIN_GROUP_REPLY: ASErr = 0x4146_5452;

/// `'VALD'`: plug-in group marks the result valid.
pub const MARK_VALID_PLUGIN_GROUP_REPLY: ASErr = 0x5641_4c44;

/// `'MOOT'`: plug-in group does not care.
pub const DONT_CARE_PLUGIN_GROUP_REPLY: ASErr = 0x4d4f_4f54;

/// `'DSTR'`: plug-in group asks to be destroyed.
pub const DESTROY_PLUGIN_GROUP_REPLY: ASErr = 0x4453_5452;

/// `'CHEK'`: plug-in group asks for a check.
pub const CHECK_PLUGIN_GROUP_REPLY: ASErr = 0x4348_454b;

/// `'CHIT'`: plug-in group reports a custom hit.
pub const CUSTOM_HIT_PLUGIN_GROUP_REPLY: ASErr = 0x4348_4954;

/// `'SKIP'`: plug-in group skips the edit.
pub const SKIP_EDIT_GROUP_REPLY: ASErr = 0x534b_4950;

/// `'CTRK'`: the tool cannot track the cursor.
pub const TOOL_CANT_TRACK_CURSOR_ERR: ASErr = 0x4354_524b;

/// `'pFls'`: caches were flushed.
pub const CACHES_FLUSH_RESPONSE: ASErr = 0x7046_6c73;

/// Caches could not be flushed: the host reads this as plain success.
pub const COULDNT_FLUSH_RESPONSE: ASErr = 0;

/// `'S!Fd'`: a suite was not found.
pub const SUITE_NOT_FOUND_ERROR: ASErr = 0x5321_4664;

/// `'!Acq'`: the plug-in could not be acquired.
pub const CANT_ACQUIRE_PLUGIN_ERROR: ASErr = 0x2141_6371;

/// `'DSRp'`: a symbol replacement was done.
pub const DID_SYMBOL_REPLACEMENT: ASErr = 0x4453_5270;

/// `'DONE'`: an iteration may stop.
pub const ITERATION_CAN_QUIT_REPLY: ASErr = 0x444f_4e45;

/// `'STOP'`: the user cancelled.
pub const CANCELED_ERR: ASErr = 0x5354_4f50;

/// A historic reply value without a symbolic name.
pub const HISTORIC_REPLY: ASErr = 361;

/// The codes that are structured replies, never failures to alert about.
pub open spec fn reply_codes() -> Seq<ASErr> {
    seq![
        UNKNOWN_FORMAT_ERR,
        REFUSE_PLUGIN_GROUP_REPLY,
        WANTS_AFTER_MSG_PLUGIN_GROUP_REPLY,
        MARK_VALID_PLUGIN_GROUP_REPLY,
        DONT_CARE_PLUGIN_GROUP_REPLY,
        DESTROY_PLUGIN_GROUP_REPLY,
        CHECK_PLUGIN_GROUP_REPLY,
        CUSTOM_HIT_PLUGIN_GROUP_REPLY,
        TOOL_CANT_TRACK_CURSOR_ERR,
        CACHES_FLUSH_RESPONSE,
        SUITE_NOT_FOUND_ERROR,
        CANT_ACQUIRE_PLUGIN_ERROR,
        DID_SYMBOL_REPLACEMENT,
        SKIP_EDIT_GROUP_REPLY,
        ITERATION_CAN_QUIT_REPLY,
        CANCELED_ERR,
        HISTORIC_REPLY,
        NO_ERR,
    ]
}

/// Whether `code` is in the reply set.
pub open spec fn is_reply_code(code: ASErr) -> bool {
    reply_codes().contains(code)
}

/// Whether `code` is a reply rather than an error.
pub fn is_reply(code: ASErr) -> (r: bool)
    ensures
        r == is_reply_code(code),
{
    let replies: Vec<ASErr> = vec![
        UNKNOWN_FORMAT_ERR,
        REFUSE_PLUGIN_GROUP_REPLY,
        WANTS_AFTER_MSG_PLUGIN_GROUP_REPLY,
        MARK_VALID_PLUGIN_GROUP_REPLY,
        DONT_CARE_PLUGIN_GROUP_REPLY,
        DESTROY_PLUGIN_GROUP_REPLY,
        CHECK_PLUGIN_GROUP_REPLY,
        CUSTOM_HIT_PLUGIN_GROUP_REPLY,
        TOOL_CANT_TRACK_CURSOR_ERR,
        CACHES_FLUSH_RESPONSE,
        SUITE_NOT_FOUND_ERROR,
        CANT_ACQUIRE_PLUGIN_ERROR,
        DID_SYMBOL_REPLACEMENT,
        SKIP_EDIT_GROUP_REPLY,
        ITERATION_CAN_QUIT_REPLY,
        CANCELED_ERR,
        HISTORIC_REPLY,
        NO_ERR,
    ];
    assert(replies@ =~= reply_codes());
    let mut i: usize = 0;
    while i < replies.len()
        invariant
            replies@ == reply_codes(),
            i <= replies.len(),
            forall|j: int| 0 <= j < i ==> replies@[j] != code,
        decreases replies.len() - i,
    {
        if replies[i] == code {
            return true;
        }
        i += 1;
    }
    false
}

} // verus!
