//! Mesh-network status as the bus-session setup reads it: the local node's
//! addresses and the discovered peers. The status itself comes from an
//! external network-status command run by the host process; this module holds
//! the data model and the verified peer-selection logic — which peers count as
//! the robot being bridged, and which of their addresses to try.

use vstd::prelude::*;

verus! {

/// One discovered mesh peer.
pub struct TailscalePeer {
    pub id: String,
    pub host_name: String,
    pub dns_name: String,
    pub tailscale_ip_list: Vec<String>,
}

/// The local node's own status entry.
pub struct TailscaleStatusSelf {
    pub id: String,
    pub host_name: String,
    pub dns_name: String,
    pub tailscale_ip_list: Vec<String>,
}

/// The whole network status: the local node's addresses, its own entry, and
/// the discovered peers in discovery order.
pub struct TailscaleStatus {
    pub tailscale_ip_list: Vec<String>,
    pub self_status: TailscaleStatusSelf,
    pub peers: Vec<TailscalePeer>,
}

/// The case-folded form of a string; a function of the characters alone.
pub uninterp spec fn lower_of(s: Seq<char>) -> Seq<char>;

/// Relies on std's `str::to_lowercase`: the result depends on the characters
/// alone.
#[verifier::external_body]
fn lowercase(s: &str) -> (r: String)
    ensures
        r@ == lower_of(s@),
{
    s.to_lowercase()
}

/// Whether `needle` occurs contiguously within `hay`.
pub open spec fn contains_sub(hay: Seq<char>, needle: Seq<char>) -> bool {
    exists|i: int|
        0 <= i && i + needle.len() <= hay.len() && #[trigger] hay.subrange(i, i + needle.len())
            == needle
}

/// Relies on std's `str::contains` with a string pattern: it reports whether
/// the pattern matches a contiguous sub-slice of the string.
#[verifier::external_body]
fn str_contains(hay: &str, needle: &str) -> (r: bool)
    ensures
        r == contains_sub(hay@, needle@),
{
    hay.contains(needle)
}

/// Whether a peer is the host being bridged: its host name, case-folded,
/// contains the host keyword.
pub open spec fn spec_peer_matches(peer: TailscalePeer, keyword: Seq<char>) -> bool {
    contains_sub(lower_of(peer.host_name@), keyword)
}

/// Decides whether a discovered peer matches the host keyword, per
/// [`spec_peer_matches`].
pub fn peer_matches(peer: &TailscalePeer, keyword: &str) -> (r: bool)
    ensures
        r == spec_peer_matches(*peer, keyword@),
{
    let lowered = lowercase(peer.host_name.as_str());
    str_contains(lowered.as_str(), keyword)
}

/// The addresses the session should try for the host keyword: every address
/// of every matching peer, in discovery order, and no address of any other.
pub open spec fn spec_peer_addresses(peers: Seq<TailscalePeer>, keyword: Seq<char>) -> Seq<
    String,
>
    decreases peers.len(),
{
    if peers.len() == 0 {
        Seq::empty()
    } else {
        spec_peer_addresses(peers.drop_last(), keyword) + (if spec_peer_matches(
            peers.last(),
            keyword,
        ) {
            peers.last().tailscale_ip_list@
        } else {
            Seq::empty()
        })
    }
}

/// Collects the candidate addresses of the peers that match the host keyword,
/// per [`spec_peer_addresses`].
pub fn peer_addresses(status: &TailscaleStatus, keyword: &str) -> (r: Vec<String>)
    ensures
        r@ == spec_peer_addresses(status.peers@, keyword@),
{
    let mut r: Vec<String> = Vec::new();
    let n: usize = status.peers.len();
    let mut i: usize = 0;
    while i < n
        invariant
            n == status.peers@.len(),
            0 <= i <= n,
            r@ == spec_peer_addresses(status.peers@.take(i as int), keyword@),
        decreases n - i,
    {
        let ghost taken = status.peers@.take(i as int);
        let ghost taken_next = status.peers@.take(i as int + 1);
        proof {
            assert(taken_next.drop_last() =~= taken);
            assert(taken_next.last() == status.peers@[i as int]);
        }
        if peer_matches(&status.peers[i], keyword) {
            let m: usize = status.peers[i].tailscale_ip_list.len();
            let mut k: usize = 0;
            while k < m
                invariant
                    n == status.peers@.len(),
                    0 <= i < n,
                    m == status.peers@[i as int].tailscale_ip_list@.len(),
                    0 <= k <= m,
                    r@ == spec_peer_addresses(status.peers@.take(i as int), keyword@)
                        + status.peers@[i as int].tailscale_ip_list@.take(k as int),
                decreases m - k,
            {
                let ghost ips = status.peers@[i as int].tailscale_ip_list@;
                proof {
                    assert(ips.take(k as int + 1) =~= ips.take(k as int) + seq![ips[k as int]]);
                }
                r.push(status.peers[i].tailscale_ip_list[k].clone());
                k = k + 1;
            }
            proof {
                let ips = status.peers@[i as int].tailscale_ip_list@;
                assert(ips.take(m as int) =~= ips);
                assert(spec_peer_addresses(taken_next, keyword@) == spec_peer_addresses(
                    taken,
                    keyword@,
                ) + ips);
            }
        } else {
            proof {
                assert(spec_peer_addresses(taken_next, keyword@) =~= spec_peer_addresses(
                    taken,
                    keyword@,
                ));
            }
        }
        i = i + 1;
    }
    proof {
        assert(status.peers@.take(n as int) =~= status.peers@);
    }
    r
}

} // verus!
