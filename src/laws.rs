use vstd::prelude::*;

use crate::response::{
    is_plain_json_text, json_message_object, message_of, response_of, status_of,
    STATUS_INTERNAL_SERVER_ERROR,
};
use crate::signal::{same_variant, FailureSignal};

verus! {

/// The response depends on the variant of the signal alone: two signals of
/// one variant get the same status, the same message and so the same JSON
/// body, byte for byte.
pub proof fn lemma_response_depends_on_variant_only(a: FailureSignal, b: FailureSignal)
    requires
        same_variant(a, b),
    ensures
        response_of(a) == response_of(b),
        json_message_object(message_of(a)) == json_message_object(message_of(b)),
{
}

/// The body of every response is a JSON object with exactly one member,
/// `message`, whose value is a string: the message needs no escape, so the
/// body is its plain framing, and that framing determines the message.
pub proof fn lemma_body_is_single_message_object(s: FailureSignal)
    ensures
        is_plain_json_text(message_of(s)),
        forall|m: Seq<char>|
            #[trigger] json_message_object(m) == json_message_object(message_of(s)) ==> m
                == message_of(s),
{
    reveal_strlit("Not Found");
    reveal_strlit("Invalid Body");
    reveal_strlit("Please check your params");
    reveal_strlit("Failed to query DB");
    reveal_strlit("Method Not Allowed");
    reveal_strlit("Internal Server Error");
    reveal_strlit("{\"message\":\"");
    reveal_strlit("\"}");
    assert forall|m: Seq<char>|
        #[trigger] json_message_object(m) == json_message_object(message_of(s)) implies m
            == message_of(s) by {
        let pre = "{\"message\":\""@;
        let post = "\"}"@;
        let x = json_message_object(m);
        assert(x.subrange(pre.len() as int, x.len() - post.len()) =~= m);
        let y = json_message_object(message_of(s));
        assert(y.subrange(pre.len() as int, y.len() - post.len()) =~= message_of(s));
    }
}

/// An unclassified failure is answered with status 500 and the message
/// "Internal Server Error" alone, whatever its detail: no part of the detail
/// reaches the response.
pub proof fn lemma_unclassified_hides_detail(d1: String, d2: String)
    ensures
        status_of(FailureSignal::Unclassified(d1)) == STATUS_INTERNAL_SERVER_ERROR,
        message_of(FailureSignal::Unclassified(d1)) == "Internal Server Error"@,
        response_of(FailureSignal::Unclassified(d1)) == response_of(FailureSignal::Unclassified(d2)),
{
}

} // verus!
