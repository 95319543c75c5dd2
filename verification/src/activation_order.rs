use vstd::prelude::*;

verus! {

/// In which order idle connections are drained from the idle
/// container on a checkout.
#[derive(Debug, Clone, Copy, PartialEq, Eq, Structural)]
pub enum ActivationOrder {
    /// The connection checked in last leaves first. This maximises
    /// cache warmth and lets cold connections age out.
    LiFo,
    /// The connection checked in first leaves first. This equalises
    /// usage over all connections.
    FiFo,
}

/// Reads an activation order from its configuration value. Exactly
/// `"LIFO"` and `"FIFO"` are accepted.
pub fn parse_activation_order(s: &str) -> (r: Result<ActivationOrder, ()>)
    ensures
        r == (if s@ == "LIFO"@ {
            Ok::<ActivationOrder, ()>(ActivationOrder::LiFo)
        } else if s@ == "FIFO"@ {
            Ok::<ActivationOrder, ()>(ActivationOrder::FiFo)
        } else {
            Err::<ActivationOrder, ()>(())
        }),
{
    let owned = s.to_owned();
    if owned == String::from_str("LIFO") {
        Ok(ActivationOrder::LiFo)
    } else if owned == String::from_str("FIFO") {
        Ok(ActivationOrder::FiFo)
    } else {
        Err(())
    }
}

} // verus!
