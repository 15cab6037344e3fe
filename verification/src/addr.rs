//! Selecting the local IPv4 addresses that discovery advertises.
//!
//! The machine's interface listing comes from an outside call and differs
//! from machine to machine, so everything here is proved about the selection
//! itself: only addresses of the private `192.168.0.0/16` range are kept, and
//! the loopback address stands in when none qualify.
use vstd::prelude::*;
use vstd::string::StrSliceExecFns;
use vstd::string::StringExecFns;

verus! {

broadcast use vstd::string::group_string_axioms;

/// True when the textual address starts with the `192.168.` prefix of the
/// private range the announcer advertises on.
pub open spec fn is_lan_address(s: Seq<char>) -> bool {
    s.len() >= 8 && s.subrange(0, 8) == "192.168."@
}

/// The addresses of `addrs` that lie in the advertised LAN range, in order.
pub open spec fn lan_filtered(addrs: Seq<Seq<char>>) -> Seq<Seq<char>> {
    addrs.filter(|a: Seq<char>| is_lan_address(a))
}

/// The broadcast candidates drawn from `addrs`: the LAN-range addresses, or
/// the loopback address alone when none qualify.
pub open spec fn lan_candidates(addrs: Seq<Seq<char>>) -> Seq<Seq<char>> {
    if lan_filtered(addrs).len() == 0 {
        seq!["127.0.0.1"@]
    } else {
        lan_filtered(addrs)
    }
}

/// Whether the textual address starts with `192.168.`.
pub fn is_lan_address_str(s: &str) -> (r: bool)
    ensures
        r == is_lan_address(s@),
{
    proof {
        reveal_strlit("192.168.");
    }
    let n: usize = s.unicode_len();
    if n < 8 {
        return false;
    }
    let r = s.get_char(0) == '1' && s.get_char(1) == '9' && s.get_char(2) == '2' && s.get_char(3)
        == '.' && s.get_char(4) == '1' && s.get_char(5) == '6' && s.get_char(6) == '8'
        && s.get_char(7) == '.';
    proof {
        if r {
            assert(s@.subrange(0, 8) =~= "192.168."@);
        } else {
            if s@.subrange(0, 8) == "192.168."@ {
                assert("192.168."@.len() == 8);
                assert("192.168."@[0] == '1');
                assert("192.168."@[1] == '9');
                assert("192.168."@[2] == '2');
                assert("192.168."@[3] == '.');
                assert("192.168."@[4] == '1');
                assert("192.168."@[5] == '6');
                assert("192.168."@[6] == '8');
                assert("192.168."@[7] == '.');
                assert(forall|i: int|
                    0 <= i < 8 ==> #[trigger] (s@.subrange(0, 8)[i]) == s@[i]);
                assert(s@[0] == '1' && s@[1] == '9' && s@[2] == '2' && s@[3] == '.' && s@[4] == '1'
                    && s@[5] == '6' && s@[6] == '8' && s@[7] == '.');
                assert(false);
            }
        }
    }
    r
}

proof fn lemma_lan_filtered_step(s: Seq<Seq<char>>, i: int)
    requires
        0 <= i < s.len(),
    ensures
        lan_filtered(s.subrange(0, i + 1)) == if is_lan_address(s[i]) {
            lan_filtered(s.subrange(0, i)).push(s[i])
        } else {
            lan_filtered(s.subrange(0, i))
        },
{
    reveal(Seq::filter);
    let pre = s.subrange(0, i + 1);
    assert(pre.drop_last() =~= s.subrange(0, i));
    assert(pre.last() == s[i]);
}

/// Keeps the LAN-range addresses of `addrs`, or returns the loopback address
/// alone when none qualify; the result is never empty.
pub fn select_lan_addresses(addrs: &Vec<String>) -> (r: Vec<String>)
    ensures
        r.deep_view() == lan_candidates(addrs.deep_view()),
        r.len() >= 1,
{
    let ghost dv: Seq<Seq<char>> = addrs.deep_view();
    let mut kept: Vec<String> = Vec::new();
    let mut i: usize = 0;
    proof {
        assert(dv.subrange(0, 0) =~= Seq::<Seq<char>>::empty());
        reveal(Seq::filter);
    }
    while i < addrs.len()
        invariant
            i <= addrs.len(),
            dv == addrs.deep_view(),
            dv.len() == addrs@.len(),
            kept.deep_view() == lan_filtered(dv.subrange(0, i as int)),
        decreases addrs.len() - i,
    {
        proof {
            assert(dv[i as int] == addrs@[i as int]@);
        }
        if is_lan_address_str(addrs[i].as_str()) {
            let ghost kept_before: Seq<Seq<char>> = kept.deep_view();
            kept.push(addrs[i].clone());
            proof {
                assert(kept.deep_view() =~= kept_before.push(dv[i as int]));
            }
        }
        i = i + 1;
        proof {
            lemma_lan_filtered_step(dv, i - 1);
        }
    }
    proof {
        assert(dv.subrange(0, dv.len() as int) =~= dv);
    }
    if kept.len() == 0 {
        let mut fallback: Vec<String> = Vec::new();
        fallback.push(String::from_str("127.0.0.1"));
        proof {
            assert(fallback.deep_view() =~= seq!["127.0.0.1"@]);
            assert(lan_filtered(dv).len() == kept.deep_view().len());
        }
        fallback
    } else {
        proof {
            assert(lan_filtered(dv).len() == kept.deep_view().len());
        }
        kept
    }
}

/// Relies on `local_ip_address::list_afinet_netifas`: enumerates the
/// machine's interface addresses in textual form. Which addresses come back
/// depends on the machine, so nothing is promised of the list; a failed
/// enumeration yields no addresses.
#[verifier::external_body]
fn interface_addresses() -> (r: Vec<String>) {
    match local_ip_address::list_afinet_netifas() {
        Ok(netifas) => netifas.into_iter().map(|(_, a)| a.to_string()).collect(),
        Err(_) => Vec::new(),
    }
}

/// The machine's broadcast candidates: the interface listing passed through
/// `select_lan_addresses`, so every outcome is a non-empty selection of some
/// interface listing.
pub fn local_ipv4_candidates() -> (r: Vec<String>)
    ensures
        r.len() >= 1,
        exists|addrs: Seq<Seq<char>>| r.deep_view() == #[trigger] lan_candidates(addrs),
{
    let addrs = interface_addresses();
    let r = select_lan_addresses(&addrs);
    proof {
        assert(r.deep_view() == lan_candidates(addrs.deep_view()));
    }
    r
}

} // verus!
