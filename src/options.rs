use vstd::prelude::*;
use vstd::string::StringExecFns;

verus! {

/// The decoder options, as (key, value) pairs in the order they are set:
/// a transport allowlist, low-delay decoding, bounded probing, and a
/// presentation-timestamp reset so that the first frame is at time zero.
pub open spec fn decoder_option_table() -> Seq<(Seq<char>, Seq<char>)> {
    seq![
        ("protocol_whitelist"@, "file,rtp,udp,https,tls,tcp"@),
        ("flags"@, "low_delay"@),
        ("analyzeduration"@, "4M"@),
        ("probesize"@, "4M"@),
        ("vf"@, "setpts=0"@),
    ]
}

/// The view of a list of string pairs.
pub open spec fn pairs_view(v: Seq<(String, String)>) -> Seq<(Seq<char>, Seq<char>)> {
    v.map_values(|p: (String, String)| (p.0@, p.1@))
}

/// Builds the decoder options that every decode session is opened with.
pub fn get_decoder_options() -> (r: Vec<(String, String)>)
    ensures
        pairs_view(r@) == decoder_option_table(),
{
    let mut r: Vec<(String, String)> = Vec::new();
    r.push((String::from_str("protocol_whitelist"), String::from_str("file,rtp,udp,https,tls,tcp")));
    r.push((String::from_str("flags"), String::from_str("low_delay")));
    r.push((String::from_str("analyzeduration"), String::from_str("4M")));
    r.push((String::from_str("probesize"), String::from_str("4M")));
    r.push((String::from_str("vf"), String::from_str("setpts=0")));
    assert(pairs_view(r@) =~= decoder_option_table());
    r
}

} // verus!
