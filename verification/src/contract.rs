//! The transition handlers: registration, gated transfer, queries and the
//! asynchronous reply channel.
//!
//! Every handler is pure: it takes the persistent state ([`Hub`]) and the
//! command as values, and returns the new state and the outbound messages.
//! The cross-party calls that the handlers decide on (the minimum-sapience
//! query answer, the acknowledgment of a dispatched notification) arrive as
//! arguments, so each handler is verified for every possible answer.

use vstd::prelude::*;
use crate::dna::{cyborg_dna_generator, dna_of, DIGEST_WIDTH};
use crate::error::ContractError;
use crate::msg::{
    Coin, ExecuteMsg, InstantiateMsg, MessageInfo, OutboundMsg, PortalMsg, QueryMsg, Response,
    ReplyOutcome, SwigResponse,
};
use crate::species::{sapience_ordinal, sapience_value, SapienceScale, Species, Traveler};
use crate::state::{Hub, Imbiber, Registry, State};

verus! {

/// Registration budget a fresh configuration starts with.
pub const DEFAULT_NUMBER_OF_SWIGS: u8 = 3;

/// Identity of the fixed authority that is notified of each registration.
pub open spec fn section31_addr() -> Seq<char> {
    "wasm_secret_address_do_not_reveal_to_anyone"@
}

/// Creates the configuration singleton: the caller becomes the owner, the
/// derivation parameters are taken from the message after a range check, and
/// the budget starts at [`DEFAULT_NUMBER_OF_SWIGS`].
pub fn instantiate(info: MessageInfo, msg: InstantiateMsg) -> (r: Result<Hub, ContractError>)
    ensures
        msg.dna_length <= DIGEST_WIDTH && msg.dna_modulus >= 1 ==> (r matches Ok(hub)
            && hub.wf()
            && hub.config.owner == info.sender
            && hub.config.dna_length == msg.dna_length
            && hub.config.dna_modulus == msg.dna_modulus
            && hub.config.swigs == DEFAULT_NUMBER_OF_SWIGS
            && hub.registry@ == Map::<Seq<char>, Imbiber>::empty()),
        msg.dna_length > DIGEST_WIDTH || msg.dna_modulus == 0 ==> (r matches Err(e)
            && e == ContractError::DnaOutOfRange),
{
    if msg.dna_length > DIGEST_WIDTH || msg.dna_modulus == 0 {
        return Result::Err(ContractError::DnaOutOfRange);
    }
    let state = State {
        owner: info.sender,
        dna_length: msg.dna_length,
        dna_modulus: msg.dna_modulus,
        swigs: DEFAULT_NUMBER_OF_SWIGS,
    };
    Result::Ok(Hub { config: state, registry: Registry::new() })
}

/// How much of the registration budget is left.
pub fn number_of_swigs(hub: &Hub) -> (r: SwigResponse)
    ensures
        r.swigs == hub.config.swigs,
{
    SwigResponse { swigs: hub.config.swigs }
}

/// Routes an inbound query to its handler.
pub fn query(hub: &Hub, msg: QueryMsg) -> (r: SwigResponse)
    ensures
        msg matches QueryMsg::NumberOfSwigs ==> r.swigs == hub.config.swigs,
{
    match msg {
        QueryMsg::NumberOfSwigs => number_of_swigs(hub),
    }
}

/// Whether one attached coin meets a required payment: same denomination,
/// at least the required amount.
pub open spec fn coin_matches(c: Coin, req: Coin) -> bool {
    c.denom@ == req.denom@ && c.amount >= req.amount
}

/// Whether the attached funds meet a required payment: no requirement, or a
/// zero required amount, is trivially met; otherwise some attached coin must
/// match the denomination and reach the amount.
pub open spec fn payment_satisfied(sent: Seq<Coin>, required: Option<Coin>) -> bool {
    match required {
        Option::None => true,
        Option::Some(req) => req.amount == 0 || exists|i: int|
            0 <= i < sent.len() && #[trigger] coin_matches(sent[i], req),
    }
}

/// Checks the attached funds against a required payment.
pub fn check_sent_required_payment(sent: &Vec<Coin>, required: Option<Coin>) -> (r: Result<
    (),
    ContractError,
>)
    ensures
        r is Ok <==> payment_satisfied(sent@, required),
        r matches Err(e) ==> e == ContractError::NotEnoughFunds,
{
    match &required {
        Option::None => Result::Ok(()),
        Option::Some(required_coin) => {
            let required_amount = required_coin.amount;
            if required_amount == 0 {
                return Result::Ok(());
            }
            let n = sent.len();
            let mut i: usize = 0;
            while i < n
                invariant
                    n == sent@.len(),
                    i <= n,
                    forall|j: int| 0 <= j < i ==> !coin_matches(sent@[j], *required_coin),
                    required_amount == required_coin.amount,
                    required == Option::Some(*required_coin),
                decreases n - i,
            {
                if sent[i].denom == required_coin.denom && sent[i].amount >= required_amount {
                    proof {
                        assert(coin_matches(sent@[i as int], *required_coin));
                    }
                    return Result::Ok(());
                }
                i = i + 1;
            }
            Result::Err(ContractError::NotEnoughFunds)
        },
    }
}

/// The sapience grade registered for `sender`.
pub open spec fn registered_level(hub: Hub, sender: Seq<char>) -> SapienceScale {
    hub.registry@[sender].species.sapience_level
}

/// Whether `sender`'s registered grade reaches the portal's minimum.
pub open spec fn sapient_enough(hub: Hub, sender: Seq<char>, minimum: SapienceScale) -> bool {
    sapience_ordinal(registered_level(hub, sender)) >= sapience_ordinal(minimum)
}

/// Compares the caller's registered sapience grade against a portal's
/// minimum. An unregistered caller is a recoverable error, not a fault.
pub fn check_sapience_level(minimum: &SapienceScale, hub: &Hub, info: &MessageInfo) -> (r: Result<
    (),
    ContractError,
>)
    requires
        hub.wf(),
    ensures
        !hub.registry@.contains_key(info.sender@) ==> (r matches Err(e)
            && e == ContractError::NotRegistered),
        hub.registry@.contains_key(info.sender@) && !sapient_enough(*hub, info.sender@, *minimum)
            ==> (r matches Err(e) && e == ContractError::NotSapientEnough),
        hub.registry@.contains_key(info.sender@) && sapient_enough(*hub, info.sender@, *minimum)
            ==> r is Ok,
{
    let imbiber = match hub.registry.load(&info.sender) {
        Option::Some(rec) => rec,
        Option::None => {
            return Result::Err(ContractError::NotRegistered);
        },
    };
    let caller_value = sapience_value(&imbiber.species.sapience_level);
    let minimum_value = sapience_value(minimum);
    if caller_value < minimum_value {
        return Result::Err(ContractError::NotSapientEnough);
    }
    Result::Ok(())
}

/// Whether the attached funds carry at least one unit of the `"PORT"`
/// denomination, the payment a jump ring passage requires.
pub open spec fn jump_payment_ok(funds: Seq<Coin>) -> bool {
    exists|i: int| 0 <= i < funds.len() && funds[i].denom@ == "PORT"@ && funds[i].amount >= 1
}

/// The one outbound call of a successful transfer: an execute-call to the
/// portal, moving the traveler to `destination`, with no funds forwarded and
/// no acknowledgment requested.
pub open spec fn jump_matches(m: OutboundMsg, portal: Seq<char>, destination: Seq<char>) -> bool {
    &&& m.contract_addr@ == portal
    &&& m.msg matches PortalMsg::JumpRingTravel { to } && to@ == destination
    &&& m.funds@.len() == 0
    &&& !m.reply_on_error
}

/// Everything the gated transfer promises, for every input: which check
/// fails first and with which error, and on success the single outbound
/// execute-call. The checks run in this order: capability, profile, payment.
pub open spec fn jumpring_outcome(
    hub: Hub,
    portal: Seq<char>,
    destination: Seq<char>,
    traveler: Traveler,
    minimum: SapienceScale,
    sender: Seq<char>,
    funds: Seq<Coin>,
    r: Result<Response, ContractError>,
) -> bool {
    if !hub.registry@.contains_key(sender) {
        r matches Err(e) && e == ContractError::NotRegistered
    } else if !sapient_enough(hub, sender, minimum) {
        r matches Err(e) && e == ContractError::NotSapientEnough
    } else if !traveler.cyberdized {
        r matches Err(e) && e == ContractError::NotACyborg
    } else if !jump_payment_ok(funds) {
        r matches Err(e) && e == ContractError::NotEnoughFunds
    } else {
        r matches Ok(resp) && resp.messages@.len() == 1 && jump_matches(
            resp.messages@[0],
            portal,
            destination,
        )
    }
}

/// A traveler who is not cyberdized never passes the gated transfer: the
/// result is an error whatever the funds and whatever the capability, and
/// once the capability check passes, that error is the profile error.
pub proof fn lemma_non_cyborg_never_travels(
    hub: Hub,
    portal: Seq<char>,
    destination: Seq<char>,
    traveler: Traveler,
    minimum: SapienceScale,
    sender: Seq<char>,
    funds: Seq<Coin>,
    r: Result<Response, ContractError>,
)
    requires
        !traveler.cyberdized,
        jumpring_outcome(hub, portal, destination, traveler, minimum, sender, funds, r),
    ensures
        r is Err,
        hub.registry@.contains_key(sender) && sapient_enough(hub, sender, minimum) ==> (r matches
        Err(e) && e == ContractError::NotACyborg),
{
}

/// The gated transfer. `portal_minimum` is the answer of the authority at
/// `portal` to the minimum-sapience query; the caller of the library obtains
/// it and hands it in. Never mutates the persistent state.
pub fn step_through_jumpring(
    portal: String,
    destination: String,
    traveler: Traveler,
    portal_minimum: SapienceScale,
    hub: &Hub,
    info: MessageInfo,
) -> (r: Result<Response, ContractError>)
    requires
        hub.wf(),
    ensures
        jumpring_outcome(
            *hub,
            portal@,
            destination@,
            traveler,
            portal_minimum,
            info.sender@,
            info.funds@,
            r,
        ),
{
    match check_sapience_level(&portal_minimum, hub, &info) {
        Result::Err(e) => {
            return Result::Err(e);
        },
        Result::Ok(()) => {},
    }

    if !traveler.cyberdized {
        return Result::Err(ContractError::NotACyborg);
    }

    let required_payment = Coin { denom: "PORT".to_owned(), amount: 1 };
    let ghost required_snapshot = required_payment;
    proof {
        assert(payment_satisfied(info.funds@, Option::Some(required_snapshot))
            == jump_payment_ok(info.funds@)) by {
            if payment_satisfied(info.funds@, Option::Some(required_snapshot)) {
                let i = choose|i: int|
                    0 <= i < info.funds@.len() && #[trigger] coin_matches(
                        info.funds@[i],
                        required_snapshot,
                    );
                assert(info.funds@[i].denom@ == "PORT"@ && info.funds@[i].amount >= 1);
            }
            if jump_payment_ok(info.funds@) {
                let i = choose|i: int|
                    0 <= i < info.funds@.len() && info.funds@[i].denom@ == "PORT"@
                        && info.funds@[i].amount >= 1;
                assert(coin_matches(info.funds@[i], required_snapshot));
            }
        }
    }
    match check_sent_required_payment(&info.funds, Option::Some(required_payment)) {
        Result::Err(e) => {
            return Result::Err(e);
        },
        Result::Ok(()) => {},
    }

    let outbound = OutboundMsg {
        contract_addr: portal,
        msg: PortalMsg::JumpRingTravel { to: destination },
        funds: Vec::new(),
        reply_on_error: false,
    };
    let mut messages: Vec<OutboundMsg> = Vec::new();
    messages.push(outbound);
    Result::Ok(Response { messages })
}

/// The record a registration stores: the caller's identity as its key and
/// owner, the supplied name and species, and byte data derived from the
/// identity with the configuration's parameters.
pub open spec fn imbiber_matches(
    rec: Imbiber,
    sender: Seq<char>,
    name: Seq<char>,
    species: Species,
    cfg: State,
) -> bool {
    &&& rec.address@ == sender
    &&& rec.name@ == name
    &&& rec.species.name@ == species.name@
    &&& rec.species.sapience_level == species.sapience_level
    &&& rec.cyborg_dna@ == dna_of(sender, cfg.dna_length as int, cfg.dna_modulus)
}

/// The one outbound call of a successful registration: a notification to the
/// fixed authority, carrying the caller identity, name and species, with an
/// acknowledgment requested on failure only.
pub open spec fn snitch_matches(
    m: OutboundMsg,
    sender: Seq<char>,
    name: Seq<char>,
    species: Species,
) -> bool {
    &&& m.contract_addr@ == section31_addr()
    &&& m.msg matches PortalMsg::Snitch { address, name: n, species: sp } && address@ == sender
        && n@ == name && sp == species
    &&& m.funds@.len() == 0
    &&& m.reply_on_error
}

/// Everything a registration promises, for every input. With the budget
/// exhausted it fails and changes nothing; otherwise it decrements the
/// budget by exactly one, stores the caller's record (overwriting any
/// earlier record of the same identity), leaves every other record and the
/// rest of the configuration untouched, and dispatches the one notification.
pub open spec fn register_outcome(
    pre: Hub,
    post: Hub,
    sender: Seq<char>,
    name: Seq<char>,
    species: Species,
    r: Result<Response, ContractError>,
) -> bool {
    if pre.config.swigs == 0 {
        post == pre && (r matches Err(e) && e == ContractError::OutOfSwigs)
    } else {
        &&& r matches Ok(resp) && resp.messages@.len() == 1 && snitch_matches(
            resp.messages@[0],
            sender,
            name,
            species,
        )
        &&& post.config.swigs == pre.config.swigs - 1
        &&& post.config.owner == pre.config.owner
        &&& post.config.dna_length == pre.config.dna_length
        &&& post.config.dna_modulus == pre.config.dna_modulus
        &&& post.registry@.dom() == pre.registry@.dom().insert(sender)
        &&& forall|k: Seq<char>|
            k != sender && #[trigger] pre.registry@.contains_key(k) ==> post.registry@[k]
                == pre.registry@[k]
        &&& imbiber_matches(post.registry@[sender], sender, name, species, pre.config)
    }
}

/// Registers the caller as an imbiber. The budget is consumed before the
/// outbound notification is constructed: a later failure of that
/// notification does not refund it.
pub fn imbibe_potion(name: String, species: Species, hub: &mut Hub, info: MessageInfo) -> (r:
    Result<Response, ContractError>)
    requires
        old(hub).wf(),
    ensures
        final(hub).wf(),
        register_outcome(*old(hub), *final(hub), info.sender@, name@, species, r),
{
    if hub.config.swigs == 0 {
        return Result::Err(ContractError::OutOfSwigs);
    }
    hub.config.swigs = hub.config.swigs - 1;

    let cyborg_dna = match cyborg_dna_generator(
        &info.sender,
        hub.config.dna_length,
        hub.config.dna_modulus,
    ) {
        Result::Ok(dna) => dna,
        Result::Err(e) => {
            // Unreachable: a well-formed configuration keeps the derivation
            // parameters in range.
            return Result::Err(e);
        },
    };

    let cyborg = Imbiber {
        address: info.sender.clone(),
        species: Species { name: species.name.clone(), sapience_level: species.sapience_level },
        name: name.clone(),
        cyborg_dna,
    };
    hub.registry.save(info.sender.clone(), cyborg);

    let outbound = OutboundMsg {
        contract_addr: "wasm_secret_address_do_not_reveal_to_anyone".to_owned(),
        msg: PortalMsg::Snitch { address: info.sender, name, species },
        funds: Vec::new(),
        reply_on_error: true,
    };
    let mut messages: Vec<OutboundMsg> = Vec::new();
    messages.push(outbound);
    Result::Ok(Response { messages })
}

/// Routes an inbound command to its handler. For a transfer command,
/// `portal_minimum` must carry the portal's answer to the minimum-sapience
/// query; a registration ignores it.
pub fn execute(
    hub: &mut Hub,
    info: MessageInfo,
    msg: ExecuteMsg,
    portal_minimum: Option<SapienceScale>,
) -> (r: Result<Response, ContractError>)
    requires
        old(hub).wf(),
        msg matches ExecuteMsg::StepThroughJumpRing { .. } ==> portal_minimum is Some,
    ensures
        final(hub).wf(),
        msg matches ExecuteMsg::ImbibePotion { name, species } ==> register_outcome(
            *old(hub),
            *final(hub),
            info.sender@,
            name@,
            species,
            r,
        ),
        msg matches ExecuteMsg::StepThroughJumpRing { portal, destination, traveler } ==> (
        *final(hub) == *old(hub) && (portal_minimum matches Some(minimum) && jumpring_outcome(
            *old(hub),
            portal@,
            destination@,
            traveler,
            minimum,
            info.sender@,
            info.funds@,
            r,
        ))),
{
    match msg {
        ExecuteMsg::ImbibePotion { name, species } => imbibe_potion(name, species, hub, info),
        ExecuteMsg::StepThroughJumpRing { portal, destination, traveler } => {
            let minimum = match portal_minimum {
                Option::Some(m) => m,
                Option::None => {
                    return Result::Err(ContractError::NotRegistered);
                },
            };
            step_through_jumpring(portal, destination, traveler, minimum, hub, info)
        },
    }
}

/// Consumes the asynchronous acknowledgment of a previously dispatched
/// outbound request. A success is a no-op; a failure surfaces as an error.
/// Neither undoes anything: the budget decrement and the registry write of
/// the registration that dispatched the request stay in effect.
pub fn reply(hub: &mut Hub, outcome: ReplyOutcome) -> (r: Result<Response, ContractError>)
    ensures
        *final(hub) == *old(hub),
        outcome matches ReplyOutcome::Completed ==> (r matches Ok(resp) && resp.messages@.len()
            == 0),
        outcome matches ReplyOutcome::Failed(_) ==> (r matches Err(e)
            && e == ContractError::NothingToSeeHere),
{
    match outcome {
        ReplyOutcome::Completed => Result::Ok(Response::empty()),
        ReplyOutcome::Failed(_) => Result::Err(ContractError::NothingToSeeHere),
    }
}

/// A step of the registration chain: some successful registration led from
/// `pre` to `post`.
pub open spec fn successful_registration(pre: Hub, post: Hub) -> bool {
    exists|sender: Seq<char>, name: Seq<char>, species: Species, r: Result<
        Response,
        ContractError,
    >| pre.config.swigs > 0 && #[trigger] register_outcome(pre, post, sender, name, species, r)
}

/// The budget decreases by exactly one per successful registration: after a
/// chain of `N` of them the budget is the initial budget minus `N`, which
/// also means the initial budget bounds how many registrations can succeed.
pub proof fn lemma_budget_after_registrations(chain: Seq<Hub>)
    requires
        chain.len() >= 1,
        forall|i: int| 0 <= i < chain.len() - 1 ==> #[trigger] successful_registration(
            chain[i],
            chain[i + 1],
        ),
    ensures
        chain[0].config.swigs >= chain.len() - 1,
        chain.last().config.swigs == chain[0].config.swigs - (chain.len() - 1),
    decreases chain.len(),
{
    if chain.len() > 1 {
        let prefix = chain.drop_last();
        assert forall|i: int| 0 <= i < prefix.len() - 1 implies #[trigger] successful_registration(
            prefix[i],
            prefix[i + 1],
        ) by {
            assert(successful_registration(chain[i], chain[i + 1]));
        }
        lemma_budget_after_registrations(prefix);
        let m = chain.len() - 2;
        assert(successful_registration(chain[m], chain[m + 1]));
        let (sender, name, species, r) = choose|sender: Seq<char>, name: Seq<char>, species:
            Species, r: Result<Response, ContractError>|
            chain[m].config.swigs > 0 && #[trigger] register_outcome(
                chain[m],
                chain[m + 1],
                sender,
                name,
                species,
                r,
            );
        assert(chain[m + 1].config.swigs == chain[m].config.swigs - 1);
    }
}

/// Registering twice with the same identity overwrites deterministically:
/// after both registrations the registry holds exactly the second record
/// under that identity, its derived data is unchanged (it depends only on
/// the identity and the immutable parameters), every other record is
/// untouched, and each registration still cost one swig.
pub proof fn lemma_reregistration_overwrites(
    h0: Hub,
    h1: Hub,
    h2: Hub,
    sender: Seq<char>,
    name1: Seq<char>,
    species1: Species,
    name2: Seq<char>,
    species2: Species,
    r1: Result<Response, ContractError>,
    r2: Result<Response, ContractError>,
)
    requires
        h0.config.swigs > 0,
        register_outcome(h0, h1, sender, name1, species1, r1),
        h1.config.swigs > 0,
        register_outcome(h1, h2, sender, name2, species2, r2),
    ensures
        imbiber_matches(h2.registry@[sender], sender, name2, species2, h0.config),
        h2.registry@.dom() == h0.registry@.dom().insert(sender),
        forall|k: Seq<char>|
            k != sender && #[trigger] h0.registry@.contains_key(k) ==> h2.registry@[k]
                == h0.registry@[k],
        h2.config.swigs == h0.config.swigs - 2,
{
    assert(h2.registry@.dom() =~= h0.registry@.dom().insert(sender));
    assert forall|k: Seq<char>|
        k != sender && #[trigger] h0.registry@.contains_key(k) implies h2.registry@[k]
        == h0.registry@[k] by {
        assert(h1.registry@.contains_key(k));
    }
}

} // verus!
