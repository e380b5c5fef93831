//! The delay that a connection imposes before proofs may be used.
use vstd::prelude::*;

use crate::context::CwIbcCoreContext;
use crate::error::{not_found, ConnectionError, ContractError, StdError};
use crate::ibc_types::ConnectionEnd;
use crate::ics24_host::host::block_delay;

verus! {

/// The outcome of the delay check at host time `now` (nanoseconds) and host
/// height `height`, for a client last updated at `last` and a connection
/// delay of `delay_nanos`.
pub open spec fn delay_check(
    now: u64,
    height: u64,
    last: crate::state::LastProcessedOn,
    delay_nanos: u64,
) -> Option<ConnectionError> {
    if last.timestamp + delay_nanos > u64::MAX {
        Some(ConnectionError::TimestampOverflow)
    } else if now < last.timestamp + delay_nanos {
        Some(
            ConnectionError::NotEnoughTimeElapsed {
                current_host_time: now,
                earliest_valid_time: (last.timestamp + delay_nanos) as u64,
            },
        )
    } else if height < last.height + block_delay(delay_nanos, 60) {
        Some(
            ConnectionError::NotEnoughBlocksElapsed {
                current_host_height: height,
                earliest_valid_height: (last.height + block_delay(delay_nanos, 60)) as u64,
            },
        )
    } else {
        None
    }
}

/// If connection `k` is stored and its client has been updated, the height at
/// which its delay ends fits in a `u64`.
pub open spec fn delay_fits(c: crate::context::ContextView, k: Seq<char>) -> bool {
    c.store.connections.contains_key(k) && c.store.last_processed_on.contains_key(c.store.connections[k].client_id)
        ==> c.store.last_processed_on[c.store.connections[k].client_id].height + block_delay(c.store.connections[k].delay_period, 60) <= u64::MAX
}

/// The delay of the connection that channel `port` / `channel` runs on, where
/// that channel is stored, fits in a `u64`.
pub open spec fn channel_delay_fits(c: crate::context::ContextView, port: Seq<char>, channel: Seq<char>) -> bool {
    match c.store.channels.get((port, channel)) {
        Some(ch) => ch.connection_hops.len() > 0 ==> delay_fits(c, ch.connection_hops[0]),
        None => true,
    }
}

/// The outcome of the delay check for a connection whose client is `client_id`.
pub open spec fn delay_result(c: crate::context::ContextView, client_id: Seq<char>, delay_nanos: u64, host_time: u64, host_height: u64) -> Option<Option<ConnectionError>> {
    match c.store.last_processed_on.get(client_id) {
        None => None,
        Some(last) => Some(delay_check(host_time, host_height, last, delay_nanos)),
    }
}

impl CwIbcCoreContext {
    /// Succeeds when enough time and enough blocks have passed on the host since
    /// the connection's client was last updated, by the connection's delay.
    pub fn verify_connection_delay_passed(
        &self,
        host_time: u64,
        host_height: u64,
        connection_end: &ConnectionEnd,
    ) -> (r: Result<(), ContractError>)
        requires
            self@.store.last_processed_on.contains_key(connection_end@.client_id) ==> self@.store.last_processed_on[connection_end@.client_id].height + block_delay(connection_end.delay_period, 60) <= u64::MAX,
        ensures
            match self@.store.last_processed_on.get(connection_end@.client_id) {
                None => r matches Err(e) && not_found(e, "last processed on"@),
                Some(last) => match delay_check(host_time, host_height, last, connection_end.delay_period) {
                    None => r is Ok,
                    Some(e) => r == Err::<(), ContractError>(ContractError::IbcConnectionError { error: e }),
                },
            },
    {
        let last = match self.store.last_processed_on.get(&connection_end.client_id) {
            Some(l) => *l,
            None => {
                return Err(ContractError::Std(StdError::NotFound { kind: String::from_str("last processed on") }));
            },
        };
        let delay = connection_end.delay_period;
        let block_delay = self.calc_block_delay(delay);
        let earliest_valid_time = match last.timestamp.checked_add(delay) {
            Some(t) => t,
            None => {
                return Err(ContractError::IbcConnectionError { error: ConnectionError::TimestampOverflow });
            },
        };
        if host_time < earliest_valid_time {
            return Err(ContractError::IbcConnectionError {
                error: ConnectionError::NotEnoughTimeElapsed { current_host_time: host_time, earliest_valid_time },
            });
        }
        let earliest_valid_height = last.height + block_delay;
        if host_height < earliest_valid_height {
            return Err(ContractError::IbcConnectionError {
                error: ConnectionError::NotEnoughBlocksElapsed { current_host_height: host_height, earliest_valid_height },
            });
        }
        Ok(())
    }
}

} // verus!
