//! Results of a sequential TCP port scan against a single IPv4 address.
//!
//! A scan probes each port of a caller-supplied list, in order, and records
//! for each one whether a TCP connection to `address:port` was established
//! within the timeout. The connect attempts themselves are network I/O and
//! live outside this library; the library defines the record type, states
//! what the result sequence of a scan is, and builds it from the ports and
//! the connect outcomes, one outcome per port, preserving the input order.

use vstd::prelude::*;

verus! {

/// The outcome of probing one TCP port at one IPv4 address: the address as
/// four octets, the port probed, and whether a connection was established
/// within the timeout window.
#[derive(Debug)]
pub struct PortOpen {
    pub ip: [u8; 4],
    pub port: u16,
    pub is_open: bool,
}

impl PortOpen {
    fn new(ip: [u8; 4], port: u16, is_open: bool) -> (r: PortOpen)
        ensures
            r.ip == ip,
            r.port == port,
            r.is_open == is_open,
    {
        PortOpen { ip, port, is_open }
    }
}

/// The result sequence of one scan: one record per probed port, in the order
/// the ports were given, each pairing the address and the port with the
/// outcome of that port's connect attempt.
pub open spec fn scan_results(ip: [u8; 4], ports: Seq<u16>, outcomes: Seq<bool>) -> Seq<PortOpen> {
    Seq::new(ports.len(), |i: int| PortOpen { ip, port: ports[i], is_open: outcomes[i] })
}

/// Pair each probed port with the outcome of its connect attempt, in the
/// order the ports were given: `outcomes[i]` is whether a TCP connection to
/// `ip:ports[i]` completed within the timeout, and the returned sequence
/// holds one record per port, without reordering, deduplication or sorting.
pub fn collect_results(ip: [u8; 4], ports: &Vec<u16>, outcomes: &Vec<bool>) -> (r: Vec<PortOpen>)
    requires
        ports@.len() == outcomes@.len(),
    ensures
        r@ == scan_results(ip, ports@, outcomes@),
{
    let mut isconn: Vec<PortOpen> = Vec::with_capacity(ports.len());
    let mut i: usize = 0;
    while i < ports.len()
        invariant
            i <= ports@.len(),
            ports@.len() == outcomes@.len(),
            isconn@.len() == i,
            forall|j: int| 0 <= j < i ==> isconn@[j] == scan_results(ip, ports@, outcomes@)[j],
        decreases ports@.len() - i,
    {
        let port = ports[i];
        let open = outcomes[i];
        isconn.push(PortOpen::new(ip, port, open));
        i = i + 1;
    }
    proof {
        assert(isconn@ =~= scan_results(ip, ports@, outcomes@));
    }
    isconn
}

/// Order preservation: a scan of `n` ports yields exactly `n` records, and
/// the record at each position holds the port given at that position.
pub proof fn lemma_order_preserved(ip: [u8; 4], ports: Seq<u16>, outcomes: Seq<bool>)
    ensures
        scan_results(ip, ports, outcomes).len() == ports.len(),
        forall|i: int|
            0 <= i < ports.len() ==> scan_results(ip, ports, outcomes)[i].port == ports[i],
{
}

/// Address echo: every record of a scan carries exactly the address that was
/// probed.
pub proof fn lemma_address_echo(ip: [u8; 4], ports: Seq<u16>, outcomes: Seq<bool>)
    ensures
        forall|i: int|
            0 <= i < scan_results(ip, ports, outcomes).len()
                ==> scan_results(ip, ports, outcomes)[i].ip == ip,
{
}

/// Outcome fidelity: the record at each position reports exactly the connect
/// outcome observed for the port at that position.
pub proof fn lemma_outcome_echo(ip: [u8; 4], ports: Seq<u16>, outcomes: Seq<bool>)
    requires
        ports.len() == outcomes.len(),
    ensures
        forall|i: int|
            0 <= i < ports.len() ==> scan_results(ip, ports, outcomes)[i].is_open == outcomes[i],
{
}

/// Empty input: a scan of no ports yields no records.
pub proof fn lemma_empty_input(ip: [u8; 4], ports: Seq<u16>, outcomes: Seq<bool>)
    requires
        ports.len() == 0,
    ensures
        scan_results(ip, ports, outcomes) == Seq::<PortOpen>::empty(),
{
    assert(scan_results(ip, ports, outcomes) =~= Seq::<PortOpen>::empty());
}

} // verus!
