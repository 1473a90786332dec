//! Laws of the codec, proved over the mathematical model.

use vstd::prelude::*;
use crate::error::ErrorView;
use crate::fields::{
    environment_of, environment_token, pair_of, payload_type_of, payload_type_token, valid_part,
    Environment, PayloadType,
};
use crate::geo::{geo_tokens, is_region_code, is_sentinel, parse_geo_spec, GeoView};
use crate::subject::{parse_spec, parse_text, SubjectView};
use crate::text::{
    dot_free, lemma_join_split, lemma_split_dot_free, lemma_split_join, no_dot, split,
};

verus! {

/// Facts about the fixed vocabulary: each token is a valid part, the tokens of
/// one field differ, and reading a token back gives its variant.
proof fn lemma_vocabulary()
    ensures
        forall|e: Environment| #[trigger] valid_part(environment_token(e)),
        forall|e: Environment| #[trigger] environment_of(environment_token(e)) == Some(e),
        forall|p: PayloadType| #[trigger] valid_part(payload_type_token(p)),
        forall|p: PayloadType| #[trigger] payload_type_of(payload_type_token(p)) == Some(p),
        valid_part("local"@),
        valid_part("global"@),
        "local"@ != "global"@,
{
    reveal_strlit("prod");
    reveal_strlit("staging");
    reveal_strlit("dev");
    reveal_strlit("heartbeat");
    reveal_strlit("data");
    reveal_strlit("diagnostics");
    reveal_strlit("command");
    reveal_strlit("event");
    reveal_strlit("custom");
    reveal_strlit("local");
    reveal_strlit("global");
    assert("prod"@ =~= seq!['p', 'r', 'o', 'd']);
    assert("staging"@ =~= seq!['s', 't', 'a', 'g', 'i', 'n', 'g']);
    assert("dev"@ =~= seq!['d', 'e', 'v']);
    assert("heartbeat"@ =~= seq!['h', 'e', 'a', 'r', 't', 'b', 'e', 'a', 't']);
    assert("data"@ =~= seq!['d', 'a', 't', 'a']);
    assert("diagnostics"@ =~= seq!['d', 'i', 'a', 'g', 'n', 'o', 's', 't', 'i', 'c', 's']);
    assert("command"@ =~= seq!['c', 'o', 'm', 'm', 'a', 'n', 'd']);
    assert("event"@ =~= seq!['e', 'v', 'e', 'n', 't']);
    assert("custom"@ =~= seq!['c', 'u', 's', 't', 'o', 'm']);
    assert("local"@ =~= seq!['l', 'o', 'c', 'a', 'l']);
    assert("global"@ =~= seq!['g', 'l', 'o', 'b', 'a', 'l']);
}

/// Joined sequences of separator-free tokens are separator-free.
proof fn lemma_dot_free_concat(a: Seq<Seq<char>>, b: Seq<Seq<char>>)
    requires
        dot_free(a),
        dot_free(b),
    ensures
        dot_free(a + b),
{
    assert forall|i: int| 0 <= i < (a + b).len() implies no_dot(#[trigger] (a + b)[i]) by {
        if i < a.len() {
            assert((a + b)[i] == a[i]);
        } else {
            assert((a + b)[i] == b[i - a.len()]);
        }
    }
}

/// The tokens of a legal subject are free of separators, and there are at least seven.
proof fn lemma_tokens_dot_free(s: SubjectView)
    requires
        s.wf(),
    ensures
        dot_free(s.tokens()),
        s.tokens().len() >= 7,
{
    lemma_vocabulary();
    let a = seq![environment_token(s.environment), s.ownership_group.0, s.ownership_group.1];
    let b = geo_tokens(s.geo_locator);
    let c = seq![
        s.service_identifier.0,
        s.service_identifier.1,
        payload_type_token(s.payload_type),
    ];
    assert(valid_part(environment_token(s.environment)));
    assert(valid_part(payload_type_token(s.payload_type)));
    assert(dot_free(a)) by {
        assert(no_dot(a[0]) && no_dot(a[1]) && no_dot(a[2]));
    }
    assert(dot_free(b)) by {
        assert(no_dot(b[0]));
        if b.len() == 3 {
            assert(no_dot(b[1]) && no_dot(b[2]));
        }
    }
    assert(dot_free(c)) by {
        assert(no_dot(c[0]) && no_dot(c[1]) && no_dot(c[2]));
    }
    lemma_dot_free_concat(a, b);
    lemma_dot_free_concat(a + b, c);
    lemma_dot_free_concat(a + b + c, s.payload_identifier);
}

/// The tokens of the subject that a token sequence reads as are that sequence,
/// and that subject is legal.
proof fn lemma_parse_tokens(ts: Seq<Seq<char>>)
    requires
        parse_spec(ts) is Ok,
        dot_free(ts),
    ensures
        parse_spec(ts)->Ok_0.tokens() == ts,
        parse_spec(ts)->Ok_0.wf(),
{
    let v = parse_spec(ts)->Ok_0;
    let (g, n) = parse_geo_spec(ts, 3)->Ok_0;
    let k = 3 + n;
    assert(geo_tokens(g) =~= ts.subrange(3, k));
    assert(v.tokens() =~= ts);
    assert(dot_free(v.payload_identifier)) by {
        assert forall|i: int| 0 <= i < v.payload_identifier.len() implies no_dot(
            #[trigger] v.payload_identifier[i],
        ) by {
            assert(v.payload_identifier[i] == ts[k + 3 + i]);
        }
    }
}

/// Round trip: a legal subject reads back, from its canonical string, as itself.
pub proof fn lemma_round_trip(s: SubjectView)
    requires
        s.wf(),
    ensures
        parse_text(s.format()) == Ok::<_, ErrorView>(s),
{
    lemma_vocabulary();
    lemma_tokens_dot_free(s);
    let ts = s.tokens();
    lemma_split_join(ts);
    let (g, n) = parse_geo_spec(ts, 3)->Ok_0;
    assert(parse_geo_spec(ts, 3) is Ok);
    assert(g == s.geo_locator);
    assert(ts.skip(3 + n + 3) =~= s.payload_identifier);
}

/// Canonical uniqueness: a string that reads as a subject is that subject's
/// canonical string, and the subject is legal.
pub proof fn lemma_canonical(text: Seq<char>)
    requires
        parse_text(text) is Ok,
    ensures
        parse_text(text)->Ok_0.format() == text,
        parse_text(text)->Ok_0.wf(),
{
    lemma_split_dot_free(text);
    lemma_parse_tokens(split(text));
    lemma_join_split(text);
}

/// Arity boundary: six tokens are too few; seven legal tokens with a sentinel
/// geo locator read as a subject with an empty payload identifier.
pub proof fn lemma_arity_boundary(text: Seq<char>)
    ensures
        split(text).len() == 6 ==> parse_text(text) == Err::<SubjectView, _>(ErrorView::TooShort),
        ({
            let ts = split(text);
            ts.len() == 7 && environment_of(ts[0]) is Some && pair_of(ts[1], ts[2]) is Some
                && is_sentinel(ts[3]) && pair_of(ts[4], ts[5]) is Some && payload_type_of(
                ts[6],
            ) is Some ==> parse_text(text) is Ok && parse_text(text)->Ok_0.payload_identifier.len()
                == 0
        }),
{
}

/// Sentinel priority: when token 3 is `local` or `global` it is the whole geo
/// locator, whatever the number of tokens: it is never checked as a region
/// code, and the later fields start at token 4.
pub proof fn lemma_sentinel_priority(ts: Seq<Seq<char>>)
    requires
        ts.len() >= 7,
        is_sentinel(ts[3]),
    ensures
        (parse_spec(ts) is Ok) == (environment_of(ts[0]) is Some && pair_of(ts[1], ts[2]) is Some
            && pair_of(ts[4], ts[5]) is Some && payload_type_of(ts[6]) is Some),
        parse_spec(ts) is Ok ==> ({
            let v = parse_spec(ts)->Ok_0;
            &&& v.geo_locator == (if ts[3] == "local"@ {
                GeoView::Local
            } else {
                GeoView::Global
            })
            &&& v.service_identifier == (ts[4], ts[5])
            &&& v.payload_identifier == ts.skip(7)
        }),
        !(parse_spec(ts) is Err && parse_spec(ts)->Err_0 is InvalidGeoCode),
{
}

/// Geo validation gating: a string whose token 3 is no sentinel, with enough
/// tokens and otherwise legal fields, reads as a subject with that explicit
/// locator exactly when its region code is recognised, and fails with that code
/// otherwise. The locator's other two tokens may be anything, even empty.
pub proof fn lemma_geo_gating(text: Seq<char>)
    requires
        split(text).len() >= 9,
        environment_of(split(text)[0]) is Some,
        pair_of(split(text)[1], split(text)[2]) is Some,
        !is_sentinel(split(text)[3]),
        pair_of(split(text)[6], split(text)[7]) is Some,
        payload_type_of(split(text)[8]) is Some,
    ensures
        !is_region_code(split(text)[3]) ==> parse_text(text) == Err::<SubjectView, _>(
            ErrorView::InvalidGeoCode { code: split(text)[3] },
        ),
        is_region_code(split(text)[3]) ==> parse_text(text) is Ok && parse_text(text)->Ok_0.geo_locator
            == GeoView::Locator(split(text)[3], split(text)[4], split(text)[5]),
{
    let ts = split(text);
    lemma_split_dot_free(text);
    assert(no_dot(ts[3]) && no_dot(ts[4]) && no_dot(ts[5]));
}

/// Empty payload path: a string that reads as a subject has exactly as many
/// payload tokens as it has tokens beyond the fixed fields (none when it has
/// just the fixed fields), and it is that subject's canonical string.
pub proof fn lemma_empty_payload(text: Seq<char>)
    requires
        parse_text(text) is Ok,
    ensures
        parse_text(text)->Ok_0.payload_identifier.len() == split(text).len() - 6 - geo_tokens(
            parse_text(text)->Ok_0.geo_locator,
        ).len(),
        parse_text(text)->Ok_0.format() == text,
{
    lemma_canonical(text);
}

} // verus!
