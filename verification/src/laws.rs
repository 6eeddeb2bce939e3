//! Crate-wide laws relating the conversions: the output round trip and the
//! purity of the read-model renderings.

use vstd::prelude::*;

use crate::address::spec_parse_input;
use crate::dto::{
    spec_balance_response, spec_convert_inputs, spec_convert_outputs, spec_metadata_response,
    spec_output_to_domain, OutputDto,
};
use crate::error::ErrorV;
use crate::hexcodec::{hex_of, lemma_hex_round_trip};
use crate::model::{AddressBalancePair, InputV, OutputMetadata, OutputV};

verus! {

/// Round trip: a wire output that is the rendering of a valid domain output —
/// the address in its raw hex form, the amount copied — converts back to
/// exactly that output, same address and same amount.
pub proof fn lemma_output_round_trip(d: OutputDto, o: OutputV)
    requires
        o.address.len() == 32,
        d.address@ == hex_of(o.address),
        d.amount == o.amount,
    ensures
        spec_output_to_domain(d) == Ok::<OutputV, ErrorV>(o),
{
    lemma_hex_round_trip(o.address);
    assert(spec_output_to_domain(d)->Ok_0 =~= o);
}

/// A successful input conversion is elementwise: it keeps the length of the
/// source sequence and parses each reference in place, preserving source
/// order exactly.
pub proof fn lemma_convert_inputs_elementwise(ss: Seq<String>, ins: Seq<InputV>)
    requires
        spec_convert_inputs(ss) == Ok::<Seq<InputV>, ErrorV>(ins),
    ensures
        ins.len() == ss.len(),
        forall|i: int| 0 <= i < ss.len() ==> spec_parse_input((#[trigger] ss[i])@) == Some(ins[i]),
    decreases ss.len(),
{
    if ss.len() > 0 {
        let iv = spec_parse_input(ss[0]@)->0;
        let rest = spec_convert_inputs(ss.drop_first())->Ok_0;
        lemma_convert_inputs_elementwise(ss.drop_first(), rest);
        assert(ins == seq![iv] + rest);
        assert forall|i: int| 0 <= i < ss.len() implies spec_parse_input((#[trigger] ss[i])@)
            == Some(ins[i]) by {
            if i > 0 {
                assert(ss.drop_first()[i - 1] == ss[i]);
                assert(rest[i - 1] == ins[i]);
            }
        }
    }
}

/// A successful output conversion is elementwise: it keeps the length of the
/// source sequence and converts each wire output in place, preserving source
/// order exactly.
pub proof fn lemma_convert_outputs_elementwise(ds: Seq<OutputDto>, outs: Seq<OutputV>)
    requires
        spec_convert_outputs(ds) == Ok::<Seq<OutputV>, ErrorV>(outs),
    ensures
        outs.len() == ds.len(),
        forall|i: int| 0 <= i < ds.len() ==> spec_output_to_domain(#[trigger] ds[i]) == Ok::<
            OutputV,
            ErrorV,
        >(outs[i]),
    decreases ds.len(),
{
    if ds.len() > 0 {
        let ov = spec_output_to_domain(ds[0])->Ok_0;
        let rest = spec_convert_outputs(ds.drop_first())->Ok_0;
        lemma_convert_outputs_elementwise(ds.drop_first(), rest);
        assert(outs == seq![ov] + rest);
        assert forall|i: int| 0 <= i < ds.len() implies spec_output_to_domain(#[trigger] ds[i])
            == Ok::<OutputV, ErrorV>(outs[i]) by {
            if i > 0 {
                assert(ds.drop_first()[i - 1] == ds[i]);
                assert(rest[i - 1] == outs[i]);
            }
        }
    }
}

/// The response rendered for a spent-output record depends on the record's
/// value alone: two records holding the same value — in particular, one
/// record rendered twice — yield identical responses.
pub proof fn lemma_metadata_response_deterministic(a: OutputMetadata, b: OutputMetadata)
    requires
        a.deep_view() == b.deep_view(),
    ensures
        spec_metadata_response(a.deep_view()) == spec_metadata_response(b.deep_view()),
{
}

/// The response rendered for an address balance pair depends on the pair's
/// value alone: two pairs holding the same value — in particular, one pair
/// rendered twice — yield identical responses.
pub proof fn lemma_balance_response_deterministic(a: AddressBalancePair, b: AddressBalancePair)
    requires
        a.deep_view() == b.deep_view(),
    ensures
        spec_balance_response(a.deep_view()) == spec_balance_response(b.deep_view()),
{
}

} // verus!
