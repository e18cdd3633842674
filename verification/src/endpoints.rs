//! The endpoint model: each endpoint of the device's descriptor tree as
//! plain values, and the classification of endpoints into readable and
//! writable interrupt endpoints.

use vstd::prelude::*;

use vstd::seq_lib::*;

verus! {

/// Direction mask of an endpoint address: bit 7 set means a device-to-host
/// (readable) endpoint, clear means host-to-device (writable).
pub const ENDPOINT_DIR_MASK: u8 = 0x80;

/// One endpoint as read out of the device's configuration descriptor tree.
/// Discovered, immutable, not persisted.
#[derive(Clone, Copy, PartialEq, Eq, Structural, Debug)]
pub struct EndpointInfo {
    /// Number of the configuration that holds the endpoint.
    pub config: u8,
    /// Number of the interface that owns the endpoint.
    pub iface: u8,
    /// Alternate-setting number of that interface.
    pub setting: u8,
    /// Endpoint address; bit 7 is the direction bit.
    pub address: u8,
    /// Whether the endpoint's transfer type is interrupt; endpoints of any
    /// other transfer type are ignored by this library.
    pub interrupt: bool,
}

/// Whether an endpoint address has the device-to-host direction bit set.
pub open spec fn spec_is_in(address: u8) -> bool {
    address & ENDPOINT_DIR_MASK == ENDPOINT_DIR_MASK
}

/// A readable endpoint: an interrupt endpoint with the direction bit set.
pub open spec fn spec_is_readable(e: EndpointInfo) -> bool {
    e.interrupt && spec_is_in(e.address)
}

/// A writable endpoint: an interrupt endpoint with the direction bit clear.
pub open spec fn spec_is_writable(e: EndpointInfo) -> bool {
    e.interrupt && !spec_is_in(e.address)
}

/// Whether an endpoint address has the device-to-host direction bit set.
pub fn is_in_endpoint(address: u8) -> (r: bool)
    ensures
        r == spec_is_in(address),
{
    address & ENDPOINT_DIR_MASK == ENDPOINT_DIR_MASK
}

/// Classify every discovered endpoint: the first result holds the readable
/// interrupt endpoints, the second the writable ones, each in discovery
/// order; endpoints of other transfer types appear in neither.
pub fn classify_endpoints(all: &Vec<EndpointInfo>) -> (r: (Vec<EndpointInfo>, Vec<EndpointInfo>))
    ensures
        r.0@ == all@.filter(|e: EndpointInfo| spec_is_readable(e)),
        r.1@ == all@.filter(|e: EndpointInfo| spec_is_writable(e)),
{
    let mut readable: Vec<EndpointInfo> = Vec::new();
    let mut writable: Vec<EndpointInfo> = Vec::new();
    let mut i: usize = 0;
    while i < all.len()
        invariant
            i <= all@.len(),
            readable@ == all@.take(i as int).filter(|e: EndpointInfo| spec_is_readable(e)),
            writable@ == all@.take(i as int).filter(|e: EndpointInfo| spec_is_writable(e)),
        decreases all@.len() - i,
    {
        let e = all[i];
        proof {
            reveal(Seq::filter);
            assert(all@.take(i + 1).drop_last() =~= all@.take(i as int));
            assert(all@.take(i + 1).last() == all@[i as int]);
        }
        if e.interrupt {
            if is_in_endpoint(e.address) {
                readable.push(e);
            } else {
                writable.push(e);
            }
        }
        i = i + 1;
    }
    proof {
        assert(all@.take(i as int) =~= all@);
    }
    (readable, writable)
}

/// The first readable interrupt endpoint of the discovery order, if any.
pub open spec fn spec_first_readable(s: Seq<EndpointInfo>) -> Option<EndpointInfo>
    decreases s.len(),
{
    if s.len() == 0 {
        None
    } else if spec_is_readable(s[0]) {
        Some(s[0])
    } else {
        spec_first_readable(s.drop_first())
    }
}

/// The first writable interrupt endpoint of the discovery order, if any.
pub open spec fn spec_first_writable(s: Seq<EndpointInfo>) -> Option<EndpointInfo>
    decreases s.len(),
{
    if s.len() == 0 {
        None
    } else if spec_is_writable(s[0]) {
        Some(s[0])
    } else {
        spec_first_writable(s.drop_first())
    }
}

/// Select the first discovered readable interrupt endpoint; `None` exactly
/// when the device presents no readable interrupt endpoint at all.
pub fn first_readable(all: &Vec<EndpointInfo>) -> (r: Option<EndpointInfo>)
    ensures
        r == spec_first_readable(all@),
        r is None <==> forall|k: int| 0 <= k < all@.len() ==> !spec_is_readable(all@[k]),
        r matches Some(e) ==> spec_is_readable(e),
{
    let mut i: usize = 0;
    proof {
        assert(all@.skip(0) =~= all@);
    }
    while i < all.len()
        invariant
            i <= all@.len(),
            spec_first_readable(all@) == spec_first_readable(all@.skip(i as int)),
            forall|k: int| 0 <= k < i ==> !spec_is_readable(all@[k]),
        decreases all@.len() - i,
    {
        let e = all[i];
        proof {
            assert(all@.skip(i as int)[0] == all@[i as int]);
            assert(all@.skip(i as int).drop_first() =~= all@.skip(i + 1));
        }
        if e.interrupt && is_in_endpoint(e.address) {
            return Some(e);
        }
        i = i + 1;
    }
    proof {
        assert(all@.skip(i as int) =~= Seq::<EndpointInfo>::empty());
    }
    None
}

/// Select the first discovered writable interrupt endpoint; `None` exactly
/// when the device presents no writable interrupt endpoint at all.
pub fn first_writable(all: &Vec<EndpointInfo>) -> (r: Option<EndpointInfo>)
    ensures
        r == spec_first_writable(all@),
        r is None <==> forall|k: int| 0 <= k < all@.len() ==> !spec_is_writable(all@[k]),
        r matches Some(e) ==> spec_is_writable(e),
{
    let mut i: usize = 0;
    proof {
        assert(all@.skip(0) =~= all@);
    }
    while i < all.len()
        invariant
            i <= all@.len(),
            spec_first_writable(all@) == spec_first_writable(all@.skip(i as int)),
            forall|k: int| 0 <= k < i ==> !spec_is_writable(all@[k]),
        decreases all@.len() - i,
    {
        let e = all[i];
        proof {
            assert(all@.skip(i as int)[0] == all@[i as int]);
            assert(all@.skip(i as int).drop_first() =~= all@.skip(i + 1));
        }
        if e.interrupt && !is_in_endpoint(e.address) {
            return Some(e);
        }
        i = i + 1;
    }
    proof {
        assert(all@.skip(i as int) =~= Seq::<EndpointInfo>::empty());
    }
    None
}

} // verus!
