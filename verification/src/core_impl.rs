//! The deposit-notification interface of the token service.
use vstd::prelude::*;

use crate::errors::StakingError;
use crate::AccountId;
use crate::Balance;
use crate::BlockHeight;
use crate::StakingContract;

verus! {

/// A receiver of fungible-token transfers. The token service notifies
/// the receiver of an incoming transfer; the returned value is the
/// portion of `amount` the receiver refuses and asks to have refunded.
pub trait FungibleTokenReceiver {
    /// What the receiver asks of its state before a notification.
    spec fn ft_on_transfer_req(
        &self,
        sender_id: &AccountId,
        amount: Balance,
        current_block: BlockHeight,
    ) -> bool;

    /// What a notification does to the receiver's state.
    spec fn ft_on_transfer_ens(
        &self,
        post: &Self,
        sender_id: &AccountId,
        amount: Balance,
        current_block: BlockHeight,
        r: Result<Balance, StakingError>,
    ) -> bool;

    /// Handle a transfer of `amount` sent by `sender_id`, with an
    /// attached message; returns how much of the transfer is refused.
    fn ft_on_transfer(
        &mut self,
        sender_id: AccountId,
        amount: Balance,
        msg: String,
        current_block: BlockHeight,
    ) -> (r: Result<Balance, StakingError>)
        requires
            old(self).ft_on_transfer_req(&sender_id, amount, current_block),
        ensures
            old(self).ft_on_transfer_ens(final(self), &sender_id, amount, current_block, r),
    ;
}

impl FungibleTokenReceiver for StakingContract {
    /// The ledger must be well formed and the deposit's arithmetic must
    /// fit the balance type.
    open spec fn ft_on_transfer_req(
        &self,
        sender_id: &AccountId,
        amount: Balance,
        current_block: BlockHeight,
    ) -> bool {
        self.wf() && self.spec_deposit_ready(sender_id@, amount, current_block)
    }

    /// A transfer stakes the full amount for the sender — zero tokens
    /// are refused — registering the sender on its first deposit; while
    /// the pool is paused it is rejected with the ledger untouched.
    open spec fn ft_on_transfer_ens(
        &self,
        post: &Self,
        sender_id: &AccountId,
        amount: Balance,
        current_block: BlockHeight,
        r: Result<Balance, StakingError>,
    ) -> bool {
        &&& post.wf()
        &&& match r {
            Ok(refused) => refused == 0 && StakingContract::spec_deposit_post(
                *self,
                *post,
                sender_id@,
                amount,
                current_block,
                Ok::<(), StakingError>(()),
            ),
            Err(e) => StakingContract::spec_deposit_post(
                *self,
                *post,
                sender_id@,
                amount,
                current_block,
                Err::<(), StakingError>(e),
            ),
        }
    }

    fn ft_on_transfer(
        &mut self,
        sender_id: AccountId,
        amount: Balance,
        msg: String,
        current_block: BlockHeight,
    ) -> (r: Result<Balance, StakingError>) {
        let _ = msg;
        match self.internal_deposit_and_stake(sender_id, amount, current_block) {
            Ok(()) => Ok(0),
            Err(e) => Err(e),
        }
    }
}

} // verus!
