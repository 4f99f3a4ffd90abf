//! Ports: the port of one instance, the range of a multi-instance launch and
//! the check that keeps the range below the highest valid port.

use vstd::prelude::*;
use crate::error::{Error, ErrorView};

verus! {

/// The highest port an instance may be bound to.
pub const MAX_VALID_PORT: u16 = 65534;

/// The port used when a request names none.
pub const DEFAULT_BRP_EXTRAS_PORT: u16 = 15702;

/// The most instances a launch can ever have: one per port number.
pub const MAX_INSTANCE_COUNT: u16 = 65535;

/// Name of the environment variable that carries the port to a launched
/// process.
pub const BRP_EXTRAS_PORT_ENV_VAR: &'static str = "BRP_EXTRAS_PORT";

/// A port number.
#[derive(Clone, Copy, Debug, PartialEq, Eq, Hash, Structural)]
pub struct Port(pub u16);

impl Default for Port {
    fn default() -> (r: Self)
        ensures
            r.0 == DEFAULT_BRP_EXTRAS_PORT,
    {
        Port(DEFAULT_BRP_EXTRAS_PORT)
    }
}

/// How many instances of a target to launch.
#[derive(Clone, Copy, Debug, PartialEq, Eq, Hash, Structural)]
pub struct InstanceCount(pub usize);

impl Default for InstanceCount {
    fn default() -> (r: Self)
        ensures
            r.0 == 1,
    {
        InstanceCount(1)
    }
}

/// The port of the instance with the given index: the base port plus the
/// index, held at the largest port number instead of wrapping.
pub open spec fn instance_port(base_port: u16, index: nat) -> u16 {
    if base_port + index > u16::MAX {
        u16::MAX
    } else {
        (base_port + index) as u16
    }
}

/// The highest port of a range of `instance_count` ports from `base_port`:
/// the port of its last instance.
pub open spec fn highest_port(base_port: u16, instance_count: nat) -> u16
    recommends
        instance_count >= 1,
{
    instance_port(base_port, (instance_count - 1) as nat)
}

/// The ports of a launch, in the order of its instances.
pub open spec fn port_range(base_port: u16, instance_count: nat) -> Seq<u16> {
    Seq::new(instance_count, |i: int| instance_port(base_port, i as nat))
}

/// The verdict on a requested range: accepted, or the error it is refused
/// with. The size of the request is judged before its ports; a request for
/// no instance asks for no port and is accepted from any base port.
pub open spec fn port_range_check(base_port: u16, instance_count: nat) -> Result<(), ErrorView> {
    if instance_count > MAX_INSTANCE_COUNT {
        Err(
            ErrorView::InstanceCountTooLarge {
                instance_count: instance_count as usize,
                maximum: MAX_INSTANCE_COUNT,
            },
        )
    } else if instance_count >= 1 && highest_port(base_port, instance_count) > MAX_VALID_PORT {
        Err(
            ErrorView::PortRangeExceeded {
                base_port,
                highest_port: highest_port(base_port, instance_count),
                max_valid_port: MAX_VALID_PORT,
            },
        )
    } else {
        Ok(())
    }
}

/// The port of one instance, computed without wrapping.
pub fn port_of_instance(base_port: u16, index: usize) -> (r: u16)
    ensures
        r == instance_port(base_port, index as nat),
{
    let offset: u16 = match u16::try_from(index) {
        Ok(v) => v,
        Err(_) => u16::MAX,
    };
    base_port.saturating_add(offset)
}

/// Checks that `instance_count` ports from `base_port` on stay within the
/// valid ports.
pub fn validate_port_range(base_port: u16, instance_count: usize) -> (r: Result<(), Error>)
    ensures
        match r {
            Ok(()) => port_range_check(base_port, instance_count as nat) is Ok,
            Err(e) => port_range_check(base_port, instance_count as nat) == Err::<(), ErrorView>(
                e@,
            ),
        },
{
    let count: u16 = match u16::try_from(instance_count) {
        Ok(v) => v,
        Err(_) => {
            return Err(Error::InstanceCountTooLarge { instance_count, maximum: u16::MAX });
        },
    };
    if count >= 1 {
        let highest: u16 = base_port.saturating_add(count - 1);
        if highest > MAX_VALID_PORT {
            return Err(
                Error::PortRangeExceeded {
                    base_port,
                    highest_port: highest,
                    max_valid_port: MAX_VALID_PORT,
                },
            );
        }
    }
    Ok(())
}

/// Allocates one port per instance: the base port and the ports that follow
/// it, or the error that `validate_port_range` gives for the request.
pub fn allocate_ports(base_port: u16, instance_count: usize) -> (r: Result<Vec<u16>, Error>)
    ensures
        match r {
            Ok(ports) => port_range_check(base_port, instance_count as nat) is Ok && ports@
                == port_range(base_port, instance_count as nat),
            Err(e) => port_range_check(base_port, instance_count as nat) == Err::<(), ErrorView>(
                e@,
            ),
        },
{
    match validate_port_range(base_port, instance_count) {
        Ok(()) => {},
        Err(e) => {
            return Err(e);
        },
    }
    let mut ports: Vec<u16> = Vec::new();
    let mut i: usize = 0;
    while i < instance_count
        invariant
            i <= instance_count,
            ports@ == port_range(base_port, i as nat),
        decreases instance_count - i,
    {
        ports.push(port_of_instance(base_port, i));
        assert(ports@ =~= port_range(base_port, (i + 1) as nat));
        i += 1;
    }
    Ok(ports)
}

/// A request for at most 65535 instances whose last port does not pass the
/// highest valid port is accepted, and its ports are the base port and its
/// successors, one per instance.
pub proof fn lemma_range_within_ceiling_is_allocated(base_port: u16, instance_count: nat)
    requires
        instance_count <= 65535,
        base_port + instance_count - 1 <= MAX_VALID_PORT,
    ensures
        port_range_check(base_port, instance_count) is Ok,
        port_range(base_port, instance_count).len() == instance_count,
        forall|i: int|
            0 <= i < instance_count ==> #[trigger] port_range(base_port, instance_count)[i]
                == base_port + i,
{
}

/// A request for at most 65535 instances whose last port passes the highest
/// valid port is refused, and the error names the last port of the range
/// (65535 where the range would pass it) and the highest valid port.
pub proof fn lemma_range_past_ceiling_is_refused(base_port: u16, instance_count: nat)
    requires
        instance_count <= 65535,
        base_port + instance_count - 1 > MAX_VALID_PORT,
    ensures
        port_range_check(base_port, instance_count) == Err::<(), ErrorView>(
            ErrorView::PortRangeExceeded {
                base_port,
                highest_port: if base_port + instance_count - 1 > 65535 {
                    65535u16
                } else {
                    (base_port + instance_count - 1) as u16
                },
                max_valid_port: MAX_VALID_PORT,
            },
        ),
{
}

/// A request for more than 65535 instances is refused for its size, whatever
/// the base port.
pub proof fn lemma_oversized_request_is_refused(base_port: u16, instance_count: nat)
    requires
        instance_count > 65535,
    ensures
        port_range_check(base_port, instance_count) == Err::<(), ErrorView>(
            ErrorView::InstanceCountTooLarge {
                instance_count: instance_count as usize,
                maximum: 65535,
            },
        ),
{
}

/// The ports of an accepted range are pairwise different and ascend by one.
pub proof fn lemma_accepted_ports_are_distinct(base_port: u16, instance_count: nat)
    requires
        port_range_check(base_port, instance_count) is Ok,
    ensures
        port_range(base_port, instance_count).no_duplicates(),
        forall|i: int|
            0 <= i < instance_count ==> #[trigger] port_range(base_port, instance_count)[i]
                == base_port + i,
        forall|i: int|
            0 <= i < instance_count ==> #[trigger] port_range(base_port, instance_count)[i]
                <= MAX_VALID_PORT,
{
}

} // verus!
