//! Stanza helpers that do not need the C library.
use vstd::prelude::*;
use vstd::string::*;

verus! {

/// The path element selecting a child stanza by name and namespace: `name[@ns='ns']`.
pub open spec fn name_in_ns_text(name: Seq<char>, ns: Seq<char>) -> Seq<char> {
    name + "[@ns='"@ + ns + "']"@
}

/// Path element for `Stanza::get_child_by_path` that selects a child by name and namespace,
/// written `name[@ns='ns']`.
#[allow(non_snake_case)]
pub fn XMPP_STANZA_NAME_IN_NS(name: &str, ns: &str) -> (r: String)
    ensures
        r@ == name_in_ns_text(name@, ns@),
{
    let mut out = String::from_str(name);
    out.append("[@ns='");
    out.append(ns);
    out.append("']");
    out
}

/// The attributes as the C library lists them: each name followed by its value.
pub open spec fn flat_attributes<T>(attrs: Seq<(T, T)>) -> Seq<T>
    decreases attrs.len(),
{
    if attrs.len() == 0 {
        Seq::empty()
    } else {
        flat_attributes(attrs.drop_last()).push(attrs.last().0).push(attrs.last().1)
    }
}

/// The name and value pairs of a flat list in which each name is followed by its value; a
/// trailing name without a value is dropped.
pub open spec fn paired_attributes<T>(flat: Seq<T>) -> Seq<(T, T)> {
    Seq::new(flat.len() / 2, |i: int| (flat[2 * i], flat[2 * i + 1]))
}

proof fn lemma_flat_len<T>(attrs: Seq<(T, T)>)
    ensures
        flat_attributes(attrs).len() == 2 * attrs.len(),
        forall|i: int|
            0 <= i < attrs.len() ==> #[trigger] flat_attributes(attrs)[2 * i] == attrs[i].0
                && flat_attributes(attrs)[2 * i + 1] == attrs[i].1,
    decreases attrs.len(),
{
    if attrs.len() > 0 {
        lemma_flat_len(attrs.drop_last());
    }
}

/// Lists attribute pairs flat, each name followed by its value, as `xmpp_conn_open_stream`
/// takes them.
pub fn flatten_attributes<T: Copy>(attrs: &Vec<(T, T)>) -> (r: Vec<T>)
    ensures
        r@ == flat_attributes(attrs@),
{
    let mut out: Vec<T> = Vec::new();
    let mut i: usize = 0;
    while i < attrs.len()
        invariant
            i <= attrs@.len(),
            out@ == flat_attributes(attrs@.subrange(0, i as int)),
        decreases attrs@.len() - i,
    {
        let (name, value) = attrs[i];
        out.push(name);
        out.push(value);
        assert(attrs@.subrange(0, i as int + 1).drop_last() =~= attrs@.subrange(0, i as int));
        i = i + 1;
    }
    assert(attrs@.subrange(0, i as int) =~= attrs@);
    out
}

/// Pairs up a flat attribute list as `xmpp_stanza_get_attributes` fills it: each name is
/// followed by its value, and a trailing name without a value is dropped.
pub fn pair_attributes<T>(flat: Vec<T>) -> (r: Vec<(T, T)>)
    ensures
        r@ == paired_attributes(flat@),
{
    let ghost orig = flat@;
    let mut rest = flat;
    let mut out: Vec<(T, T)> = Vec::new();
    let ghost mut i: int = 0;
    while rest.len() >= 2
        invariant
            0 <= 2 * i <= orig.len(),
            rest@ == orig.skip(2 * i),
            out@ == paired_attributes(orig.take(2 * i)),
        decreases rest@.len(),
    {
        let name = rest.remove(0);
        let value = rest.remove(0);
        proof {
            assert(name == orig[2 * i]);
            assert(value == orig[2 * i + 1]);
            assert(rest@ =~= orig.skip(2 * i + 2));
        }
        out.push((name, value));
        proof {
            assert(out@ =~= paired_attributes(orig.take(2 * i + 2)));
            i = i + 1;
        }
    }
    proof {
        assert(paired_attributes(orig.take(2 * i)) =~= paired_attributes(orig));
    }
    out
}

/// Listing attribute pairs flat and pairing the list up again gives back the same pairs.
pub proof fn law_attributes_round_trip<T>(attrs: Seq<(T, T)>)
    ensures
        paired_attributes(flat_attributes(attrs)) == attrs,
{
    lemma_flat_len(attrs);
    assert(paired_attributes(flat_attributes(attrs)) =~= attrs);
}

} // verus!
