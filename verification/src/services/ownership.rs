//! Who may act on what: one check for every engine.

use vstd::prelude::*;
use crate::error::AppError;

verus! {

/// Lets a principal act on an entity only where the entity is theirs.
pub fn ensure_owner(owner: u128, principal: u128) -> (r: Result<(), AppError>)
    ensures
        r.is_ok() <==> owner == principal,
        r matches Err(e) ==> e == AppError::Forbidden,
{
    if owner == principal {
        Ok(())
    } else {
        Err(AppError::Forbidden)
    }
}

/// Whether a player may read a report, and as whom: reports are for the
/// attacker and for the defender. The result tells whether the player is
/// the attacker.
pub fn report_reader(attacker: u128, defender: Option<u128>, player: u128) -> (r: Result<
    bool,
    AppError,
>)
    ensures
        r.is_ok() <==> attacker == player || defender == Some(player),
        r matches Ok(is_attacker) ==> is_attacker == (attacker == player),
        r matches Err(e) ==> e == AppError::Forbidden,
{
    let is_attacker = attacker == player;
    let is_defender = match defender {
        Some(d) => d == player,
        None => false,
    };
    if !is_attacker && !is_defender {
        return Err(AppError::Forbidden);
    }
    Ok(is_attacker)
}

/// Whether a report was read by the side that asks.
pub fn is_read(read_by_attacker: bool, read_by_defender: bool, is_attacker: bool) -> (r: bool)
    ensures
        r == if is_attacker {
            read_by_attacker
        } else {
            read_by_defender
        },
{
    if is_attacker {
        read_by_attacker
    } else {
        read_by_defender
    }
}

} // verus!
