//! The escrow operations: initialization, creation on asset receipt,
//! cancellation, settlement, and the read-only queries.

use vstd::prelude::*;

use crate::error::ContractError;
use crate::msg::{
    Coin, ConfigResponse, CreateAck, EscrowInfo, ExecuteMsg, ExecuteResponse, InstantiateMsg,
    MigrateMsg, NftReceiveMsg, QueryMsg, QueryResponse, TransferNftInstruction,
};
use crate::state::{
    find_creator, lemma_find_creator, lemma_find_creator_push, lemma_find_creator_same_sellers,
    Config, CreatorEntry, State,
};
use vstd::string::StringExecFns;

verus! {

/// The amount of `denom` present in `funds`: the sum of the amounts of every
/// coin of that denomination.
pub open spec fn denom_total(funds: Seq<Coin>, denom: Seq<char>) -> int
    decreases funds.len(),
{
    if funds.len() == 0 {
        0
    } else {
        denom_total(funds.drop_last(), denom) + (if funds.last().denom@ == denom {
            funds.last().amount as int
        } else {
            0
        })
    }
}

/// `x`, held to the largest amount a record can carry.
pub open spec fn cap_u128(x: int) -> int {
    if x <= u128::MAX as int {
        x
    } else {
        u128::MAX as int
    }
}

proof fn lemma_denom_total_nonneg(funds: Seq<Coin>, denom: Seq<char>)
    ensures
        denom_total(funds, denom) >= 0,
    decreases funds.len(),
{
    if funds.len() > 0 {
        lemma_denom_total_nonneg(funds.drop_last(), denom);
    }
}

/// The balance-extraction adapter: how much of `denom` the attached funds
/// hold, saturating at the numeric ceiling so the result is total.
pub fn get_amount_of_denom(funds: &Vec<Coin>, denom: &String) -> (amount: u128)
    ensures
        amount as int == cap_u128(denom_total(funds@, denom@)),
{
    let mut total: u128 = 0;
    let mut i: usize = 0;
    #[verifier::loop_isolation(false)]
    while i < funds.len()
        invariant
            i <= funds@.len(),
            total as int == cap_u128(denom_total(funds@.take(i as int), denom@)),
        decreases funds@.len() - i,
    {
        proof {
            lemma_denom_total_nonneg(funds@.take(i as int), denom@);
            assert(funds@.take(i as int + 1).drop_last() =~= funds@.take(i as int));
            assert(funds@.take(i as int + 1).last() == funds@[i as int]);
        }
        if funds[i].denom == *denom {
            let a = funds[i].amount;
            if total <= u128::MAX - a {
                total = total + a;
            } else {
                total = u128::MAX;
            }
        }
        i = i + 1;
    }
    proof {
        assert(funds@.take(funds@.len() as int) =~= funds@);
    }
    total
}

/// The record as it stands after a cancellation at `time`.
pub open spec fn with_cancel_stamp(e: EscrowInfo, time: u64) -> EscrowInfo {
    EscrowInfo { canceled_timestamp: time, ..e }
}

/// The instruction a successful cancel or settle issues: return or deliver
/// the escrowed asset to `recipient`.
pub open spec fn asset_transfer(e: EscrowInfo, recipient: String) -> TransferNftInstruction {
    TransferNftInstruction {
        cw721_address: e.cw721_address,
        token_id: e.token_id,
        recipient,
    }
}

/// A response that carries exactly one transfer instruction and no
/// acknowledgment.
pub open spec fn is_single_transfer(resp: ExecuteResponse, t: TransferNftInstruction) -> bool {
    &&& resp.messages@.len() == 1
    &&& resp.messages@[0] == t
    &&& resp.ack is None
}

impl State {
    /// Cancellation goes through: the module is enabled, the escrow exists,
    /// the caller is its seller, and no payment was recorded against it.
    pub open spec fn can_cancel(self, sender: String, id: u64) -> bool {
        &&& self.is_enabled()
        &&& self.spec_has_escrow(id)
        &&& self.spec_escrow(id).seller@ == sender@
        &&& self.spec_escrow(id).amount == 0
    }

    /// Which error a failing cancellation reports, in the order the
    /// preconditions are checked.
    pub open spec fn cancel_error(self, sender: String, id: u64) -> ContractError {
        match self.config {
            None => ContractError::NotFound {},
            Some(c) => if !c.enabled {
                ContractError::Disabled {}
            } else if !self.spec_has_escrow(id) {
                ContractError::NotFound {}
            } else if self.spec_escrow(id).seller@ != sender@ {
                ContractError::CannotCancelEscrowNotSeller {}
            } else {
                ContractError::CannotCancelEscrowNoFunds {}
            },
        }
    }

    /// Settlement goes through: the module is enabled, the escrow exists,
    /// the caller is its designated buyer, and the attached funds hold at
    /// least the price in the configured denomination.
    pub open spec fn can_settle(self, sender: String, funds: Seq<Coin>, id: u64) -> bool {
        &&& self.is_enabled()
        &&& self.spec_has_escrow(id)
        &&& self.spec_escrow(id).buyer@ == sender@
        &&& denom_total(funds, self.config->Some_0.denom@) >= self.spec_escrow(id).price as int
    }

    /// Which error a failing settlement reports, in the order the
    /// preconditions are checked.
    pub open spec fn settle_error(self, sender: String, id: u64) -> ContractError {
        match self.config {
            None => ContractError::NotFound {},
            Some(c) => if !c.enabled {
                ContractError::Disabled {}
            } else if !self.spec_has_escrow(id) {
                ContractError::NotFound {}
            } else if self.spec_escrow(id).buyer@ != sender@ {
                ContractError::InvalidBuyer {}
            } else {
                ContractError::InsufficientFund {}
            },
        }
    }
}

/// The asset-collection address a creation directive names.
pub open spec fn directive_collection(msg: NftReceiveMsg) -> String {
    match msg {
        NftReceiveMsg::CreateEscrow { cw721_address, price: _, buyer: _ } => cw721_address,
    }
}

/// The record a successful creation enters into the ledger: unfunded, not
/// canceled, stamped with the event time.
pub open spec fn created_escrow(
    depositor: String,
    token_id: String,
    msg: NftReceiveMsg,
    time: u64,
) -> EscrowInfo {
    match msg {
        NftReceiveMsg::CreateEscrow { cw721_address, price, buyer } => EscrowInfo {
            token_id,
            cw721_address,
            price,
            amount: 0,
            seller: depositor,
            buyer,
            created_timestamp: time,
            canceled_timestamp: 0,
        },
    }
}

impl State {
    /// Creation goes through: the module is enabled and the notification's
    /// sender is the asset-collection address the directive names.
    pub open spec fn can_create(self, sender: String, msg: NftReceiveMsg) -> bool {
        self.is_enabled() && directive_collection(msg)@ == sender@
    }

    /// Which error a failing creation reports, in the order the
    /// preconditions are checked.
    pub open spec fn create_error(self, sender: String, msg: NftReceiveMsg) -> ContractError {
        match self.config {
            None => ContractError::NotFound {},
            Some(c) => if !c.enabled {
                ContractError::Disabled {}
            } else {
                ContractError::InvalidCw721Token {}
            },
        }
    }
}

/// What a successful creation leaves behind: the record, stamped with the
/// configuration's counter as its identifier, is appended to the ledger and
/// to the depositor's creator-index entry (other sellers' entries are
/// untouched), the counter grows by one, and the response carries an
/// acknowledgment and no transfer instruction.
pub open spec fn create_ok_post(
    pre: State,
    post: State,
    resp: ExecuteResponse,
    depositor: String,
    token_id: String,
    msg: NftReceiveMsg,
    time: u64,
) -> bool {
    let rec = created_escrow(depositor, token_id, msg, time);
    match pre.config {
        Some(c) => {
            &&& post.escrows@ == pre.escrows@.push(rec)
            &&& post.config == (Some(
                Config {
                    owner: c.owner,
                    escrow_id: (c.escrow_id + 1) as u64,
                    denom: c.denom,
                    enabled: c.enabled,
                },
            ))
            &&& post.spec_has_escrow(c.escrow_id)
            &&& post.spec_escrow(c.escrow_id) == rec
            &&& post.creator_escrows(depositor@) == pre.creator_escrows(depositor@).push(rec)
            &&& (forall|s: Seq<char>|
                s != depositor@ ==> post.creator_escrows(s) == pre.creator_escrows(s))
            &&& resp.messages@.len() == 0
            &&& resp.ack == (Some(
                CreateAck { token_id: rec.token_id, price: rec.price, buyer: rec.buyer },
            ))
        },
        None => false,
    }
}

/// What a successful cancellation leaves behind: the record keeps everything
/// but its cancellation timestamp, the rest of the state is untouched, and
/// the response carries exactly one instruction returning the asset to the
/// seller.
pub open spec fn cancel_ok_post(
    pre: State,
    post: State,
    resp: ExecuteResponse,
    sender: String,
    time: u64,
    id: u64,
) -> bool {
    &&& post.escrows@ == pre.escrows@.update(id as int, with_cancel_stamp(pre.spec_escrow(id), time))
    &&& post.config == pre.config
    &&& post.creators == pre.creators
    &&& is_single_transfer(resp, asset_transfer(pre.spec_escrow(id), sender))
}

/// Creates an escrow from an asset-received notification. `sender` is the
/// address the notification came from, `depositor` the party who gave the
/// asset up (the seller), `token_id` the asset. On success the record gets
/// the configuration's current counter as its identifier, the counter grows
/// by one, the depositor's creator-index entry is appended to, and an
/// acknowledgment — but no transfer instruction — is returned.
pub fn execute_receive_nft(
    state: &mut State,
    sender: String,
    time: u64,
    depositor: String,
    token_id: String,
    msg: NftReceiveMsg,
) -> (r: Result<ExecuteResponse, ContractError>)
    requires
        old(state).wf(),
        old(state).config matches Some(c) ==> c.escrow_id < u64::MAX,
    ensures
        final(state).wf(),
        r is Ok <==> old(state).can_create(sender, msg),
        r is Err ==> r == Err::<ExecuteResponse, ContractError>(
            old(state).create_error(sender, msg),
        ) && *final(state) == *old(state),
        r is Ok ==> create_ok_post(
            *old(state),
            *final(state),
            r->Ok_0,
            depositor,
            token_id,
            msg,
            time,
        ),
{
    let (owner, escrow_id, denom, module_enabled) = match &state.config {
        None => {
            return Err(ContractError::NotFound {});
        },
        Some(c) => (c.owner.clone(), c.escrow_id, c.denom.clone(), c.enabled),
    };
    if !module_enabled {
        return Err(ContractError::Disabled {});
    }
    match msg {
        NftReceiveMsg::CreateEscrow { cw721_address, price, buyer } => {
            if !(sender == cw721_address) {
                return Err(ContractError::InvalidCw721Token {});
            }
            let ack = CreateAck { token_id: token_id.clone(), price, buyer: buyer.clone() };
            let record = EscrowInfo {
                token_id,
                cw721_address,
                price,
                amount: 0,
                seller: depositor.clone(),
                buyer,
                created_timestamp: time,
                canceled_timestamp: 0,
            };
            let record_for_index = record.duplicate();
            let n = state.creators.len();
            let mut k: usize = 0;
            #[verifier::loop_isolation(false)]
            while k < n && !(state.creators[k].seller == depositor)
                invariant
                    k <= n,
                    forall|j: int| 0 <= j < k ==> state.creators@[j].seller@ != depositor@,
                decreases n - k,
            {
                k = k + 1;
            }
            if k < n {
                let entry = &mut state.creators[k];
                entry.escrows.push(record_for_index);
            } else {
                let mut first: Vec<EscrowInfo> = Vec::new();
                first.push(record_for_index);
                state.creators.push(
                    CreatorEntry { seller: depositor.clone(), escrows: first },
                );
            }
            state.escrows.push(record);
            state.config = Some(
                Config { owner, escrow_id: escrow_id + 1, denom, enabled: module_enabled },
            );
            proof {
                let pre = old(state).creators@;
                let post = state.creators@;
                lemma_find_creator(pre, depositor@);
                if k < n {
                    assert(post.len() == pre.len());
                    assert(post[k as int].seller@ == depositor@);
                    assert(forall|i: int|
                        0 <= i < pre.len() ==> pre[i].seller@ == post[i].seller@);
                    lemma_find_creator(post, depositor@);
                    assert(find_creator(pre, depositor@) == k);
                    assert(find_creator(post, depositor@) == k);
                    assert forall|s: Seq<char>|
                        s != depositor@ implies state.creator_escrows(s) == old(
                        state,
                    ).creator_escrows(s) by {
                        lemma_find_creator_same_sellers(pre, post, s);
                        lemma_find_creator(pre, s);
                        if find_creator(pre, s) != -1 {
                            assert(pre[find_creator(pre, s)].seller@ == s);
                            assert(post[find_creator(pre, s)] == pre[find_creator(pre, s)]);
                        }
                    }
                } else {
                    assert(find_creator(pre, depositor@) == -1);
                    let e = post[pre.len() as int];
                    assert(post == pre.push(e));
                    assert(e.seller@ == depositor@);
                    lemma_find_creator_push(pre, e, depositor@);
                    assert(find_creator(post, depositor@) == pre.len() as int);
                    assert(old(state).creator_escrows(depositor@) == Seq::<EscrowInfo>::empty());
                    assert forall|s: Seq<char>|
                        s != depositor@ implies state.creator_escrows(s) == old(
                        state,
                    ).creator_escrows(s) by {
                        lemma_find_creator_push(pre, e, s);
                        lemma_find_creator(pre, s);
                        if find_creator(pre, s) != -1 {
                            assert(post[find_creator(pre, s)] == pre[find_creator(pre, s)]);
                        }
                    }
                }
            }
            Ok(ExecuteResponse { messages: Vec::new(), ack: Some(ack) })
        },
    }
}

/// Cancels an escrow: only its seller may, and only while no payment is
/// recorded against it. On success the cancellation time is persisted and
/// one instruction is issued returning the asset to the seller.
pub fn execute_cancel_escrow(state: &mut State, sender: String, time: u64, id: u64) -> (r: Result<
    ExecuteResponse,
    ContractError,
>)
    requires
        old(state).wf(),
    ensures
        final(state).wf(),
        r is Ok <==> old(state).can_cancel(sender, id),
        r is Err ==> r == Err::<ExecuteResponse, ContractError>(
            old(state).cancel_error(sender, id),
        ) && *final(state) == *old(state),
        r is Ok ==> cancel_ok_post(*old(state), *final(state), r->Ok_0, sender, time, id),
{
    match &state.config {
        None => {
            return Err(ContractError::NotFound {});
        },
        Some(c) => {
            if !c.enabled {
                return Err(ContractError::Disabled {});
            }
        },
    }
    if !(id < state.escrows.len() as u64) {
        return Err(ContractError::NotFound {});
    }
    let i = id as usize;
    if !(state.escrows[i].seller == sender) {
        return Err(ContractError::CannotCancelEscrowNotSeller {});
    }
    if state.escrows[i].amount != 0 {
        return Err(ContractError::CannotCancelEscrowNoFunds {});
    }
    let instruction = TransferNftInstruction {
        cw721_address: state.escrows[i].cw721_address.clone(),
        token_id: state.escrows[i].token_id.clone(),
        recipient: sender,
    };
    let record = &mut state.escrows[i];
    record.canceled_timestamp = time;
    let mut messages: Vec<TransferNftInstruction> = Vec::new();
    messages.push(instruction);
    Ok(ExecuteResponse { messages, ack: None })
}

/// Settles an escrow: only its designated buyer may, and only with funds
/// holding at least the price in the configured denomination. On success one
/// instruction is issued delivering the asset to the buyer; the state does
/// not change.
pub fn execute_send_funds(state: &mut State, sender: String, funds: Vec<Coin>, escrow_id: u64) -> (r:
    Result<ExecuteResponse, ContractError>)
    requires
        old(state).wf(),
    ensures
        *final(state) == *old(state),
        r is Ok <==> old(state).can_settle(sender, funds@, escrow_id),
        r is Err ==> r == Err::<ExecuteResponse, ContractError>(
            old(state).settle_error(sender, escrow_id),
        ),
        r is Ok ==> is_single_transfer(
            r->Ok_0,
            asset_transfer(old(state).spec_escrow(escrow_id), sender),
        ),
{
    let denom = match &state.config {
        None => {
            return Err(ContractError::NotFound {});
        },
        Some(c) => {
            if !c.enabled {
                return Err(ContractError::Disabled {});
            }
            c.denom.clone()
        },
    };
    if !(escrow_id < state.escrows.len() as u64) {
        return Err(ContractError::NotFound {});
    }
    let i = escrow_id as usize;
    if !(state.escrows[i].buyer == sender) {
        return Err(ContractError::InvalidBuyer {});
    }
    let amount = get_amount_of_denom(&funds, &denom);
    if amount < state.escrows[i].price {
        return Err(ContractError::InsufficientFund {});
    }
    let instruction = TransferNftInstruction {
        cw721_address: state.escrows[i].cw721_address.clone(),
        token_id: state.escrows[i].token_id.clone(),
        recipient: sender,
    };
    let mut messages: Vec<TransferNftInstruction> = Vec::new();
    messages.push(instruction);
    Ok(ExecuteResponse { messages, ack: None })
}

/// Carries out one mutating request: dispatches to creation, cancellation
/// or settlement. `sender` is the caller, `funds` the coins attached to the
/// request, `time` the event time.
pub fn execute(
    state: &mut State,
    sender: String,
    funds: Vec<Coin>,
    time: u64,
    msg: ExecuteMsg,
) -> (r: Result<ExecuteResponse, ContractError>)
    requires
        old(state).wf(),
        msg is ReceiveNft ==> (old(state).config matches Some(c) ==> c.escrow_id < u64::MAX),
    ensures
        final(state).wf(),
        msg matches ExecuteMsg::ReceiveNft { sender: depositor, token_id, msg: directive } ==> ({
            &&& (r is Ok <==> old(state).can_create(sender, directive))
            &&& (r is Err ==> r == Err::<ExecuteResponse, ContractError>(
                old(state).create_error(sender, directive),
            ) && *final(state) == *old(state))
            &&& (r is Ok ==> create_ok_post(
                *old(state),
                *final(state),
                r->Ok_0,
                depositor,
                token_id,
                directive,
                time,
            ))
        }),
        msg matches ExecuteMsg::CancelEscrow { escrow_id } ==> ({
            &&& (r is Ok <==> old(state).can_cancel(sender, escrow_id))
            &&& (r is Err ==> r == Err::<ExecuteResponse, ContractError>(
                old(state).cancel_error(sender, escrow_id),
            ) && *final(state) == *old(state))
            &&& (r is Ok ==> cancel_ok_post(
                *old(state),
                *final(state),
                r->Ok_0,
                sender,
                time,
                escrow_id,
            ))
        }),
        msg matches ExecuteMsg::SendFunds { escrow_id } ==> ({
            &&& *final(state) == *old(state)
            &&& (r is Ok <==> old(state).can_settle(sender, funds@, escrow_id))
            &&& (r is Err ==> r == Err::<ExecuteResponse, ContractError>(
                old(state).settle_error(sender, escrow_id),
            ))
            &&& (r is Ok ==> is_single_transfer(
                r->Ok_0,
                asset_transfer(old(state).spec_escrow(escrow_id), sender),
            ))
        }),
{
    match msg {
        ExecuteMsg::ReceiveNft { sender: depositor, token_id, msg: directive } => {
            execute_receive_nft(state, sender, time, depositor, token_id, directive)
        },
        ExecuteMsg::CancelEscrow { escrow_id } => {
            execute_cancel_escrow(state, sender, time, escrow_id)
        },
        ExecuteMsg::SendFunds { escrow_id } => {
            execute_send_funds(state, sender, funds, escrow_id)
        },
    }
}

/// The `GetConfig` answer a configuration maps to.
pub open spec fn config_response(c: Config) -> ConfigResponse {
    ConfigResponse { owner: c.owner, escrow_id: c.escrow_id, denom: c.denom, enabled: c.enabled }
}

impl EscrowInfo {
    /// A copy of the record, equal to the original.
    pub fn duplicate(&self) -> (r: EscrowInfo)
        ensures
            r == *self,
    {
        EscrowInfo {
            token_id: self.token_id.clone(),
            cw721_address: self.cw721_address.clone(),
            price: self.price,
            amount: self.amount,
            seller: self.seller.clone(),
            buyer: self.buyer.clone(),
            created_timestamp: self.created_timestamp,
            canceled_timestamp: self.canceled_timestamp,
        }
    }
}

/// Creates the configuration singleton on a fresh state: the sender becomes
/// the administrator, the counter starts at 0, and the module starts enabled.
pub fn instantiate(state: &mut State, sender: String, msg: InstantiateMsg)
    requires
        old(state).config is None,
        old(state).escrows@.len() == 0,
        old(state).creators@.len() == 0,
    ensures
        final(state).wf(),
        final(state).config == (Some(
            Config { owner: sender, escrow_id: 0u64, denom: msg.denom, enabled: true },
        )),
        final(state).escrows@ == old(state).escrows@,
        final(state).creators@ == old(state).creators@,
{
    state.config = Some(Config { owner: sender, escrow_id: 0, denom: msg.denom, enabled: true });
}

/// Reports the current configuration; fails with `NotFound` before
/// initialization.
pub fn query_config(state: &State) -> (r: Result<ConfigResponse, ContractError>)
    ensures
        r == (match state.config {
            Some(c) => Ok::<ConfigResponse, ContractError>(config_response(c)),
            None => Err::<ConfigResponse, ContractError>(ContractError::NotFound {}),
        }),
{
    match &state.config {
        Some(c) => Ok(
            ConfigResponse {
                owner: c.owner.clone(),
                escrow_id: c.escrow_id,
                denom: c.denom.clone(),
                enabled: c.enabled,
            },
        ),
        None => Err(ContractError::NotFound {}),
    }
}

/// Reports the escrow record with the given identifier; fails with
/// `NotFound` if no such escrow exists.
pub fn query_get_escrow(state: &State, id: u64) -> (r: Result<EscrowInfo, ContractError>)
    ensures
        r == (if state.spec_has_escrow(id) {
            Ok::<EscrowInfo, ContractError>(state.spec_escrow(id))
        } else {
            Err::<EscrowInfo, ContractError>(ContractError::NotFound {})
        }),
{
    if id < state.escrows.len() as u64 {
        Ok(state.escrows[id as usize].duplicate())
    } else {
        Err(ContractError::NotFound {})
    }
}

/// Answers a read-only request.
pub fn query(state: &State, msg: QueryMsg) -> (r: Result<QueryResponse, ContractError>)
    ensures
        msg matches QueryMsg::GetConfig {  } ==> r == (match state.config {
            Some(c) => Ok::<QueryResponse, ContractError>(
                QueryResponse::Config(config_response(c)),
            ),
            None => Err::<QueryResponse, ContractError>(ContractError::NotFound {}),
        }),
        msg matches QueryMsg::GetEscrow { id } ==> r == (if state.spec_has_escrow(id) {
            Ok::<QueryResponse, ContractError>(QueryResponse::Escrow(state.spec_escrow(id)))
        } else {
            Err::<QueryResponse, ContractError>(ContractError::NotFound {})
        }),
{
    match msg {
        QueryMsg::GetConfig {} => match query_config(state) {
            Ok(resp) => Ok(QueryResponse::Config(resp)),
            Err(e) => Err(e),
        },
        QueryMsg::GetEscrow { id } => match query_get_escrow(state, id) {
            Ok(e) => Ok(QueryResponse::Escrow(e)),
            Err(e) => Err(e),
        },
    }
}

/// Accepts a migration only when the stored contract name is this module's
/// own name; otherwise reports the name that was found.
pub fn migrate(stored_contract_name: String, _msg: MigrateMsg) -> (r: Result<
    (),
    ContractError,
>)
    ensures
        stored_contract_name@ == "escrow"@ ==> r is Ok,
        stored_contract_name@ != "escrow"@ ==> r == Err::<(), ContractError>(
            ContractError::CannotMigrate { previous_contract: stored_contract_name },
        ),
{
    let own_name = String::from_str("escrow");
    if stored_contract_name == own_name {
        Ok(())
    } else {
        Err(ContractError::CannotMigrate { previous_contract: stored_contract_name })
    }
}

} // verus!
