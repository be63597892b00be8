//! Properties of the composed acknowledgment text: how it divides into
//! segments and fields, and what the protocol-relevant fields hold.
//!
//! Field values extracted from a parsed message never contain the field or
//! segment separator, so the lemmas take separator-free fields as given
//! and recover each field of the reply by position.

use vstd::prelude::*;

use crate::ack::{
    ack_code, ack_message, ack_msa_segment, ack_msh_segment, ack_type, enhanced_of, fields_of,
    is_control_id, msh_head, sep, spec_generated_ack, MshFieldsView,
};
use crate::fresh::spec_alnum;
use crate::text::{free_of, lemma_split_atom, lemma_split_chunk, split_on};

verus! {

/// `s` can stand as one field of one segment: it contains neither the
/// field separator nor the segment separator.
pub open spec fn field_clean(s: Seq<char>) -> bool {
    free_of(s, '|') && free_of(s, '\r')
}

/// Every extracted header field is separator-free.
pub open spec fn fields_clean(f: MshFieldsView) -> bool {
    &&& field_clean(f.sending_app)
    &&& field_clean(f.sending_facility)
    &&& field_clean(f.receiving_app)
    &&& field_clean(f.receiving_facility)
    &&& field_clean(f.trigger_event)
    &&& field_clean(f.control_id)
    &&& field_clean(f.processing_id)
    &&& field_clean(f.version)
    &&& field_clean(f.accept_ack)
    &&& field_clean(f.application_ack)
}

/// A generated control identifier is alphanumeric, hence separator-free.
pub proof fn lemma_control_id_clean(id: Seq<char>)
    requires
        is_control_id(id),
    ensures
        field_clean(id),
{
    assert forall|i: int| 0 <= i < id.len() implies id[i] != '|' && id[i] != '\r' by {
        assert(spec_alnum(id[i]));
    }
}

proof fn lemma_free_concat(a: Seq<char>, b: Seq<char>, sep: char)
    requires
        free_of(a, sep),
        free_of(b, sep),
    ensures
        free_of(a + b, sep),
{
    assert forall|i: int| 0 <= i < (a + b).len() implies (a + b)[i] != sep by {
        if i < a.len() {
            assert((a + b)[i] == a[i]);
        } else {
            assert((a + b)[i] == b[i - a.len()]);
        }
    }
}

proof fn lemma_ack_type_free(trigger: Seq<char>, sep: char)
    requires
        free_of(trigger, sep),
        sep != 'A' && sep != 'C' && sep != 'K' && sep != '^',
    ensures
        free_of(ack_type(trigger), sep),
{
    lemma_free_concat(seq!['A', 'C', 'K', '^'], trigger, sep);
    lemma_free_concat(seq!['A', 'C', 'K', '^'] + trigger, seq!['^', 'A', 'C', 'K'], sep);
}

/// The reply header segment, split at the field separator: the fixed name
/// and encoding-character fields, the swapped endpoint fields, the
/// timestamp, an empty field, the message type, the fresh control
/// identifier, and the copied processing id and version.
pub proof fn lemma_ack_msh_fields(f: MshFieldsView, id: Seq<char>, ts: Seq<char>)
    requires
        free_of(f.receiving_app, '|'),
        free_of(f.receiving_facility, '|'),
        free_of(f.sending_app, '|'),
        free_of(f.sending_facility, '|'),
        free_of(f.trigger_event, '|'),
        free_of(f.processing_id, '|'),
        free_of(f.version, '|'),
        free_of(id, '|'),
        free_of(ts, '|'),
    ensures
        split_on(ack_msh_segment(f, id, ts), '|') == seq![
            seq!['M', 'S', 'H'],
            seq!['^', '~', '\\', '&'],
            f.receiving_app,
            f.receiving_facility,
            f.sending_app,
            f.sending_facility,
            ts,
            Seq::<char>::empty(),
            ack_type(f.trigger_event),
            id,
            f.processing_id,
            f.version,
        ],
{
    let bar = seq!['|'];
    let c0 = seq!['M', 'S', 'H'];
    let c1 = seq!['^', '~', '\\', '&'];
    let c8 = ack_type(f.trigger_event);
    let t11 = f.version;
    let t10 = f.processing_id + bar + t11;
    let t9 = id + bar + t10;
    let t8 = c8 + bar + t9;
    let t7 = Seq::<char>::empty() + bar + t8;
    let t6 = ts + bar + t7;
    let t5 = f.sending_facility + bar + t6;
    let t4 = f.sending_app + bar + t5;
    let t3 = f.receiving_facility + bar + t4;
    let t2 = f.receiving_app + bar + t3;
    let t1 = c1 + bar + t2;
    let t0 = c0 + bar + t1;
    assert(ack_msh_segment(f, id, ts) =~= t0);
    lemma_ack_type_free(f.trigger_event, '|');
    lemma_split_atom(t11, '|');
    lemma_split_chunk(f.processing_id, t11, '|');
    lemma_split_chunk(id, t10, '|');
    lemma_split_chunk(c8, t9, '|');
    lemma_split_chunk(Seq::<char>::empty(), t8, '|');
    lemma_split_chunk(ts, t7, '|');
    lemma_split_chunk(f.sending_facility, t6, '|');
    lemma_split_chunk(f.sending_app, t5, '|');
    lemma_split_chunk(f.receiving_facility, t4, '|');
    lemma_split_chunk(f.receiving_app, t3, '|');
    lemma_split_chunk(c1, t2, '|');
    lemma_split_chunk(c0, t1, '|');
    assert(split_on(t0, '|') =~= seq![
        c0,
        c1,
        f.receiving_app,
        f.receiving_facility,
        f.sending_app,
        f.sending_facility,
        ts,
        Seq::<char>::empty(),
        c8,
        id,
        f.processing_id,
        f.version,
    ]);
}

/// The acknowledgment segment, split at the field separator: the fixed
/// name, the code, the inbound control identifier, and the reason text.
pub proof fn lemma_ack_msa_fields(code: Seq<char>, control_id: Seq<char>, success: bool)
    requires
        free_of(code, '|'),
        free_of(control_id, '|'),
    ensures
        split_on(ack_msa_segment(code, control_id, success), '|') == seq![
            seq!['M', 'S', 'A'],
            code,
            control_id,
            if success {
                "Message accepted"@
            } else {
                "Message rejected"@
            },
        ],
{
    let bar = seq!['|'];
    let c0 = seq!['M', 'S', 'A'];
    let reason = if success {
        "Message accepted"@
    } else {
        "Message rejected"@
    };
    let t2 = control_id + bar + reason;
    let t1 = code + bar + t2;
    let t0 = c0 + bar + t1;
    assert(ack_msa_segment(code, control_id, success) =~= t0);
    if success {
        reveal_strlit("Message accepted");
    } else {
        reveal_strlit("Message rejected");
    }
    assert(free_of(reason, '|'));
    lemma_split_atom(reason, '|');
    lemma_split_chunk(control_id, reason, '|');
    lemma_split_chunk(code, t2, '|');
    lemma_split_chunk(c0, t1, '|');
    assert(split_on(t0, '|') =~= seq![c0, code, control_id, reason]);
}

/// The complete reply, split at the segment separator: exactly the header
/// segment followed by the acknowledgment segment.
pub proof fn lemma_ack_segments(f: MshFieldsView, success: bool, id: Seq<char>, ts: Seq<char>)
    requires
        fields_clean(f),
        field_clean(id),
        field_clean(ts),
    ensures
        split_on(ack_message(f, success, id, ts), '\r') == seq![
            ack_msh_segment(f, id, ts),
            ack_msa_segment(ack_code(enhanced_of(f), success), f.control_id, success),
        ],
{
    let msh = ack_msh_segment(f, id, ts);
    let msa = ack_msa_segment(ack_code(enhanced_of(f), success), f.control_id, success);
    let cr = '\r';
    lemma_ack_type_free(f.trigger_event, cr);
    assert(free_of(msh_head(), cr));
    lemma_free_concat(msh_head(), f.receiving_app, cr);
    let s1 = msh_head() + f.receiving_app;
    lemma_free_concat(s1, sep(), cr);
    let s2 = s1 + sep();
    lemma_free_concat(s2, f.receiving_facility, cr);
    let s3 = s2 + f.receiving_facility;
    lemma_free_concat(s3, sep(), cr);
    let s4 = s3 + sep();
    lemma_free_concat(s4, f.sending_app, cr);
    let s5 = s4 + f.sending_app;
    lemma_free_concat(s5, sep(), cr);
    let s6 = s5 + sep();
    lemma_free_concat(s6, f.sending_facility, cr);
    let s7 = s6 + f.sending_facility;
    lemma_free_concat(s7, sep(), cr);
    let s8 = s7 + sep();
    lemma_free_concat(s8, ts, cr);
    let s9 = s8 + ts;
    lemma_free_concat(s9, sep(), cr);
    let s10 = s9 + sep();
    lemma_free_concat(s10, sep(), cr);
    let s11 = s10 + sep();
    lemma_free_concat(s11, ack_type(f.trigger_event), cr);
    let s12 = s11 + ack_type(f.trigger_event);
    lemma_free_concat(s12, sep(), cr);
    let s13 = s12 + sep();
    lemma_free_concat(s13, id, cr);
    let s14 = s13 + id;
    lemma_free_concat(s14, sep(), cr);
    let s15 = s14 + sep();
    lemma_free_concat(s15, f.processing_id, cr);
    let s16 = s15 + f.processing_id;
    lemma_free_concat(s16, sep(), cr);
    let s17 = s16 + sep();
    lemma_free_concat(s17, f.version, cr);
    assert(free_of(msh, cr));
    let reason = if success {
        "Message accepted"@
    } else {
        "Message rejected"@
    };
    if success {
        reveal_strlit("Message accepted");
    } else {
        reveal_strlit("Message rejected");
    }
    assert(free_of(reason, cr));
    assert(free_of(ack_code(enhanced_of(f), success), cr));
    let m1 = seq!['M', 'S', 'A', '|'];
    assert(free_of(m1, cr));
    lemma_free_concat(m1, ack_code(enhanced_of(f), success), cr);
    let m2 = m1 + ack_code(enhanced_of(f), success);
    lemma_free_concat(m2, sep(), cr);
    let m3 = m2 + sep();
    lemma_free_concat(m3, f.control_id, cr);
    let m4 = m3 + f.control_id;
    lemma_free_concat(m4, sep(), cr);
    let m5 = m4 + sep();
    lemma_free_concat(m5, reason, cr);
    assert(free_of(msa, cr));
    lemma_split_atom(msa, cr);
    lemma_split_chunk(msh, msa, cr);
    assert(ack_message(f, success, id, ts) == msh + seq![cr] + msa);
    assert(split_on(ack_message(f, success, id, ts), cr) =~= seq![msh, msa]);
}

/// Any acknowledgment the library reports generating for `text` — when
/// the inbound fields are separator-free — divides into a header and an
/// acknowledgment segment whose protocol fields are pinned down: the
/// negotiated code, the inbound control identifier, the message type
/// built from the inbound trigger event, and the swapped endpoint fields.
pub proof fn lemma_generated_ack_fields(text: Seq<char>, success: bool, s: Seq<char>)
    requires
        spec_generated_ack(text, success, s),
        fields_clean(fields_of(text)),
    ensures
        split_on(split_on(s, '\r')[1], '|')[1] == ack_code(enhanced_of(fields_of(text)), success),
        split_on(split_on(s, '\r')[1], '|')[2] == fields_of(text).control_id,
        split_on(split_on(s, '\r')[0], '|')[8] == ack_type(fields_of(text).trigger_event),
        split_on(split_on(s, '\r')[0], '|')[2] == fields_of(text).receiving_app,
        split_on(split_on(s, '\r')[0], '|')[3] == fields_of(text).receiving_facility,
        split_on(split_on(s, '\r')[0], '|')[4] == fields_of(text).sending_app,
        split_on(split_on(s, '\r')[0], '|')[5] == fields_of(text).sending_facility,
{
    let f = fields_of(text);
    let (id, ts) = choose|id: Seq<char>, ts: Seq<char>|
        is_control_id(id) && free_of(ts, '|') && free_of(ts, '\r') && s == #[trigger] ack_message(
            f,
            success,
            id,
            ts,
        );
    lemma_control_id_clean(id);
    lemma_ack_segments(f, success, id, ts);
    lemma_ack_msh_fields(f, id, ts);
    let code = ack_code(enhanced_of(f), success);
    assert(free_of(code, '|'));
    lemma_ack_msa_fields(code, f.control_id, success);
}

/// With both ack-request fields empty, the negotiation stays basic and a
/// success acknowledgment carries the code "AA" in the second field of the
/// reply's acknowledgment segment.
pub proof fn lemma_basic_ack_code(f: MshFieldsView, id: Seq<char>, ts: Seq<char>)
    requires
        fields_clean(f),
        field_clean(id),
        field_clean(ts),
        f.accept_ack.len() == 0,
        f.application_ack.len() == 0,
    ensures
        !enhanced_of(f),
        split_on(split_on(ack_message(f, true, id, ts), '\r')[1], '|')[1] == seq!['A', 'A'],
{
    lemma_ack_segments(f, true, id, ts);
    lemma_ack_msa_fields(ack_code(false, true), f.control_id, true);
}

/// With either ack-request field present, the negotiation is enhanced and
/// the acknowledgment code is "CA" on success and "CE" on error.
pub proof fn lemma_enhanced_ack_code(f: MshFieldsView, success: bool, id: Seq<char>, ts: Seq<
    char,
>)
    requires
        fields_clean(f),
        field_clean(id),
        field_clean(ts),
        f.accept_ack.len() > 0 || f.application_ack.len() > 0,
    ensures
        enhanced_of(f),
        split_on(split_on(ack_message(f, success, id, ts), '\r')[1], '|')[1] == (if success {
            seq!['C', 'A']
        } else {
            seq!['C', 'E']
        }),
{
    lemma_ack_segments(f, success, id, ts);
    lemma_ack_msa_fields(ack_code(true, success), f.control_id, success);
}

/// The reply's message-type field is `ACK^` + inbound trigger event +
/// `^ACK`: the ninth field of the reply's header segment.
pub proof fn lemma_ack_message_type(f: MshFieldsView, success: bool, id: Seq<char>, ts: Seq<
    char,
>)
    requires
        fields_clean(f),
        field_clean(id),
        field_clean(ts),
    ensures
        split_on(split_on(ack_message(f, success, id, ts), '\r')[0], '|')[8] == seq![
            'A',
            'C',
            'K',
            '^',
        ] + f.trigger_event + seq!['^', 'A', 'C', 'K'],
{
    lemma_ack_segments(f, success, id, ts);
    lemma_ack_msh_fields(f, id, ts);
}

/// The reply swaps the endpoint fields: its sending application and
/// facility are the inbound receiving ones, and vice versa.
pub proof fn lemma_ack_swaps_endpoints(f: MshFieldsView, success: bool, id: Seq<char>, ts: Seq<
    char,
>)
    requires
        fields_clean(f),
        field_clean(id),
        field_clean(ts),
    ensures
        split_on(split_on(ack_message(f, success, id, ts), '\r')[0], '|')[2] == f.receiving_app,
        split_on(split_on(ack_message(f, success, id, ts), '\r')[0], '|')[3]
            == f.receiving_facility,
        split_on(split_on(ack_message(f, success, id, ts), '\r')[0], '|')[4] == f.sending_app,
        split_on(split_on(ack_message(f, success, id, ts), '\r')[0], '|')[5] == f.sending_facility,
{
    lemma_ack_segments(f, success, id, ts);
    lemma_ack_msh_fields(f, id, ts);
}

} // verus!
