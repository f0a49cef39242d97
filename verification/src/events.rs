//! An event registry: an organiser creates an event with a limited number of
//! seats and an attendance code, attendees register and cancel, and an
//! attendee who gives the right code inside the event's time window mints
//! one attendance NFT into the event's collection.
//!
//! Each instruction takes the state of the accounts it works on and returns
//! what it decided; the token-program calls it asks for are returned as plain
//! values for the caller to make.
use vstd::prelude::*;
use vstd::string::StringSliceAdditionalSpecFns;
use vstd::utf8::encode_utf8;
use crate::key::{
    Pubkey, bytes32_eq, text_seed, byte_seed, seeds3, seeds_view, AccountSet, accounts_after_init,
    accounts_after_close, lemma_accounts_after_init,
};
use crate::text::{u32_to_decimal, decimal, decimal_value, all_digits, lemma_decimal_reads_back};

verus! {

/// The bytes that precede an account's data.
pub const ANCHOR_DISCRIMINATOR_SIZE: usize = 8;

/// The token symbol of the collection and of every attendance NFT.
pub const SYMBOL: &'static str = "TLT";

/// Errors of the event registry.
#[derive(Clone, Copy, Debug, PartialEq, Eq, Structural)]
pub enum ErrorCode {
    RegistrationNotOpenYet,
    RegistrationCompleted,
    InvalidAttentanceCode,
    NotMinitingTime,
    NftAlreadyMinted,
    OverflowError,
    InvalidEventTime,
}

/// An event.
#[derive(Clone, Debug)]
pub struct Event {
    pub creator: Pubkey,
    pub name: String,
    pub description: String,
    pub url: String,
    pub attentance_code: [u8; 32],
    pub start_time: i64,
    pub end_time: i64,
    pub total_attentees: u32,
    pub registered_attentees: u32,
    pub collection_mint: Pubkey,
}

/// One attendee's registration for one event.
#[derive(Clone, Copy, Debug)]
pub struct EventRegistration {
    pub event: Pubkey,
    pub attentee: Pubkey,
    pub registered: bool,
    pub attented: bool,
    pub attentence_nft_minted: bool,
}

/// A creator listed in token metadata.
#[derive(Clone, Copy, Debug)]
pub struct Creator {
    pub address: Pubkey,
    pub verified: bool,
    pub share: u8,
}

/// The collection a token's metadata names, and whether that membership is
/// verified.
#[derive(Clone, Copy, Debug)]
pub struct Collection {
    pub verified: bool,
    pub key: Pubkey,
}

/// How the uses of a token are spent.
#[derive(Clone, Copy, Debug, PartialEq, Eq, Structural)]
pub enum UseMethod {
    Burn,
    Multiple,
    Single,
}

/// The uses a token grants.
#[derive(Clone, Copy, Debug)]
pub struct Uses {
    pub use_method: UseMethod,
    pub remaining: u64,
    pub total: u64,
}

/// The metadata a token is given: its data (name, symbol, uri, fee,
/// creators, collection, uses), whether it stays mutable, whether the update
/// authority signs, and the size of the collection it founds, if it founds
/// one.
#[derive(Clone, Debug)]
pub struct TokenMetadata {
    pub name: String,
    pub symbol: String,
    pub uri: String,
    pub seller_fee_basis_points: u16,
    pub creators: Option<Vec<Creator>>,
    pub collection: Option<Collection>,
    pub uses: Option<Uses>,
    pub is_mutable: bool,
    pub update_authority_is_signer: bool,
    pub collection_size: Option<u64>,
}

/// How the new token's place in the event's collection is confirmed once
/// its metadata and master edition exist.
#[derive(Clone, Copy, Debug)]
pub enum CollectionVerification {
    /// The collection mint signs the metadata as its creator.
    SignAsCreator,
    /// The token is set into the sized collection and verified, the
    /// collection mint acting as collection authority, with the given
    /// authority record, if any.
    SetAndVerifySizedItem { collection_authority_record: Option<Pubkey> },
}

/// The token-program calls for one NFT, each signed by the collection mint
/// with `signer_seeds`, in this order: mint `mint_amount` tokens, write
/// `metadata`, create the master edition with `max_supply`, then confirm
/// the collection as `verification` says.
#[derive(Clone, Debug)]
pub struct MintPlan {
    pub signer_seeds: Vec<Vec<u8>>,
    pub mint_amount: u64,
    pub metadata: TokenMetadata,
    pub max_supply: Option<u64>,
    pub verification: CollectionVerification,
}

/// Accounts of `initialize_event`.
pub struct InitializeEvent {
    pub payer: Pubkey,
    pub event_account: Event,
    pub collection_mint: Pubkey,
    pub collection_mint_bump: u8,
}

/// Accounts of `edit_event`.
pub struct EditEvent {
    pub creator: Pubkey,
    pub event_account: Event,
}

/// Accounts of `close_event`.
pub struct CloseEvent {
    pub payer: Pubkey,
    pub event_account: Event,
}

/// Accounts of `register_event`.
pub struct RegisterEvent {
    pub attentee: Pubkey,
    pub event_account: Event,
    pub event_account_key: Pubkey,
    pub registration_account: EventRegistration,
}

/// Accounts of `cancel_registration`.
pub struct CancelRegistration {
    pub attentee: Pubkey,
    pub event_account: Event,
    pub event_account_key: Pubkey,
    pub registration_account: EventRegistration,
}

/// Accounts of `mint_nft`.
pub struct MintNft {
    pub attentee: Pubkey,
    pub event_account: Event,
    pub event_account_key: Pubkey,
    pub registration_account: EventRegistration,
    pub collection_mint: Pubkey,
    pub collection_mint_bump: u8,
    pub nft_mint: Pubkey,
}

// ---------------------------------------------------------------------------
// Addresses

/// Seeds of an event's address: its creator and its name.
pub open spec fn event_seeds(creator: Pubkey, name: Seq<char>) -> Seq<Seq<u8>> {
    seq!["event".spec_bytes(), creator.bytes@, encode_utf8(name)]
}

/// Seeds of the collection mint of the event with the given name.
pub open spec fn collection_mint_seeds(name: Seq<char>) -> Seq<Seq<u8>> {
    seq!["collection_mint".spec_bytes(), encode_utf8(name)]
}

/// Seeds of the collection's token account for the event with the given name.
pub open spec fn collection_token_seeds(name: Seq<char>) -> Seq<Seq<u8>> {
    seq!["collection_associated_token".spec_bytes(), encode_utf8(name)]
}

/// Seeds of an attendee's registration for an event.
pub open spec fn registration_seeds(event: Pubkey, attentee: Pubkey) -> Seq<Seq<u8>> {
    seq!["attentee".spec_bytes(), event.bytes@, attentee.bytes@]
}

/// Seeds of an attendee's NFT mint for an event.
pub open spec fn nft_mint_seeds(event: Pubkey, attentee: Pubkey) -> Seq<Seq<u8>> {
    seq!["nft_mint".spec_bytes(), event.bytes@, attentee.bytes@]
}

/// The seeds with which the collection mint signs: its own seeds and its bump.
pub open spec fn collection_signer_seeds(name: Seq<char>, bump: u8) -> Seq<Seq<u8>> {
    collection_mint_seeds(name).push(seq![bump])
}

/// Seeds of the event's address, from its creator and name.
pub fn event_address_seeds(creator: &Pubkey, name: &str) -> (r: Vec<Vec<u8>>)
    ensures
        seeds_view(r@) == event_seeds(*creator, name@),
{
    seeds3(text_seed("event"), creator.as_seed(), text_seed(name))
}

/// Seeds of a registration's address, from the event and the attendee.
pub fn registration_address_seeds(event: &Pubkey, attentee: &Pubkey) -> (r: Vec<Vec<u8>>)
    ensures
        seeds_view(r@) == registration_seeds(*event, *attentee),
{
    seeds3(text_seed("attentee"), event.as_seed(), attentee.as_seed())
}

/// Seeds of an attendee's NFT mint, from the event and the attendee.
pub fn nft_mint_address_seeds(event: &Pubkey, attentee: &Pubkey) -> (r: Vec<Vec<u8>>)
    ensures
        seeds_view(r@) == nft_mint_seeds(*event, *attentee),
{
    seeds3(text_seed("nft_mint"), event.as_seed(), attentee.as_seed())
}

/// Seeds of the collection's token account, from the event's name.
pub fn collection_token_address_seeds(name: &str) -> (r: Vec<Vec<u8>>)
    ensures
        seeds_view(r@) == collection_token_seeds(name@),
{
    let ghost v = seq!["collection_associated_token".spec_bytes(), encode_utf8(name@)];
    let mut r: Vec<Vec<u8>> = Vec::new();
    r.push(text_seed("collection_associated_token"));
    r.push(text_seed(name));
    proof {
        assert(seeds_view(r@) =~= v);
    }
    r
}

/// The seeds with which the collection mint of the named event signs.
fn collection_signer(name: &str, bump: u8) -> (r: Vec<Vec<u8>>)
    ensures
        seeds_view(r@) == collection_signer_seeds(name@, bump),
{
    seeds3(text_seed("collection_mint"), text_seed(name), byte_seed(bump))
}

impl InitializeEvent {
    /// Seeds of the event account that `initialize_event` creates.
    pub fn event_account_seeds(&self, name: &str) -> (r: Vec<Vec<u8>>)
        ensures
            seeds_view(r@) == event_seeds(self.payer, name@),
    {
        event_address_seeds(&self.payer, name)
    }
}

impl EditEvent {
    /// Seeds of the event account that `edit_event` changes.
    pub fn event_account_seeds(&self, name: &str) -> (r: Vec<Vec<u8>>)
        ensures
            seeds_view(r@) == event_seeds(self.creator, name@),
    {
        event_address_seeds(&self.creator, name)
    }

    /// Whether the signer is the event's creator.
    pub fn has_one_creator(&self) -> (r: bool)
        ensures
            r == (self.event_account.creator.bytes@ == self.creator.bytes@),
    {
        self.event_account.creator == self.creator
    }
}

/// The stored event's own address seeds.
pub fn stored_event_seeds(event: &Event) -> (r: Vec<Vec<u8>>)
    ensures
        seeds_view(r@) == event_seeds(event.creator, event.name@),
{
    event_address_seeds(&event.creator, event.name.as_str())
}

// ---------------------------------------------------------------------------
// Instructions

/// The event that `initialize_event` writes.
pub open spec fn new_event(
    payer: Pubkey,
    name: String,
    description: String,
    url: String,
    attentance_code: [u8; 32],
    start_time: i64,
    end_time: i64,
    total_attentees: u32,
    collection_mint: Pubkey,
) -> Event {
    Event {
        creator: payer,
        name,
        description,
        url,
        attentance_code,
        start_time,
        end_time,
        total_attentees,
        registered_attentees: 0,
        collection_mint,
    }
}

/// Creates an event and plans its collection NFT.
///
/// The event is refused with `InvalidEventTime` when `start_time <= end_time`:
/// only an event that starts after it ends is accepted. An accepted event has
/// no registrations yet; the collection NFT is one token, named and linked
/// like the event, listing the collection mint as its only creator, founding
/// a collection of size 0, with a master edition of supply 0.
pub fn initialize_event(
    ctx: &mut InitializeEvent,
    name: String,
    description: String,
    url: String,
    attentance_code: [u8; 32],
    start_time: i64,
    end_time: i64,
    total_attentees: u32,
    collection_mint: Pubkey,
) -> (r: Result<MintPlan, ErrorCode>)
    ensures
        start_time <= end_time ==> r == Err::<MintPlan, ErrorCode>(ErrorCode::InvalidEventTime)
            && *final(ctx) == *old(ctx),
        start_time > end_time ==> {
            &&& final(ctx).payer == old(ctx).payer
            &&& final(ctx).collection_mint == old(ctx).collection_mint
            &&& final(ctx).collection_mint_bump == old(ctx).collection_mint_bump
            &&& final(ctx).event_account == new_event(
                old(ctx).payer,
                name,
                description,
                url,
                attentance_code,
                start_time,
                end_time,
                total_attentees,
                collection_mint,
            )
            &&& r matches Ok(plan) && {
                &&& seeds_view(plan.signer_seeds@) == collection_signer_seeds(
                    name@,
                    old(ctx).collection_mint_bump,
                )
                &&& plan.mint_amount == 1
                &&& plan.max_supply == Some(0u64)
                &&& plan.metadata.name == name
                &&& plan.metadata.symbol@ == SYMBOL@
                &&& plan.metadata.uri == url
                &&& plan.metadata.seller_fee_basis_points == 0
                &&& plan.metadata.creators matches Some(creators) && creators@ == seq![
                    (Creator { address: old(ctx).collection_mint, verified: false, share: 100 }),
                ]
                &&& plan.metadata.collection is None
                &&& plan.metadata.uses is None
                &&& plan.metadata.is_mutable
                &&& plan.metadata.update_authority_is_signer
                &&& plan.metadata.collection_size == Some(0u64)
                &&& plan.verification is SignAsCreator
            }
        },
{
    if start_time <= end_time {
        return Err(ErrorCode::InvalidEventTime);
    }
    ctx.event_account = Event {
        creator: ctx.payer,
        name,
        description,
        url,
        attentance_code,
        start_time,
        end_time,
        total_attentees,
        registered_attentees: 0,
        collection_mint,
    };
    let signer_seeds = collection_signer(
        ctx.event_account.name.as_str(),
        ctx.collection_mint_bump,
    );
    let mut creators: Vec<Creator> = Vec::new();
    creators.push(Creator { address: ctx.collection_mint, verified: false, share: 100 });
    let metadata = TokenMetadata {
        name: ctx.event_account.name.clone(),
        symbol: String::from_str(SYMBOL),
        uri: ctx.event_account.url.clone(),
        seller_fee_basis_points: 0,
        creators: Some(creators),
        collection: None,
        uses: None,
        is_mutable: true,
        update_authority_is_signer: true,
        collection_size: Some(0),
    };
    Ok(
        MintPlan {
            signer_seeds,
            mint_amount: 1,
            metadata,
            max_supply: Some(0),
            verification: CollectionVerification::SignAsCreator,
        },
    )
}

/// Replaces an event's attendance code, time window and number of seats.
/// Nothing is checked: the window may be set either way round, and the
/// number of seats below the number already registered.
pub fn edit_event(
    ctx: &mut EditEvent,
    _name: String,
    attentance_code: [u8; 32],
    start_time: i64,
    end_time: i64,
    total_attentees: u32,
) -> (r: Result<(), ErrorCode>)
    ensures
        r is Ok,
        final(ctx).creator == old(ctx).creator,
        final(ctx).event_account == (Event {
            attentance_code,
            start_time,
            end_time,
            total_attentees,
            ..old(ctx).event_account
        }),
{
    ctx.event_account.attentance_code = attentance_code;
    ctx.event_account.start_time = start_time;
    ctx.event_account.end_time = end_time;
    ctx.event_account.total_attentees = total_attentees;
    Ok(())
}

/// Closes an event; the event account's lamports go to the payer, whoever
/// the payer is.
pub fn close_event(ctx: &CloseEvent) -> (r: Result<(), ErrorCode>)
    ensures
        r is Ok,
{
    Ok(())
}

/// What registering does to an event's count of registrations: refused when
/// every seat is taken, and when the count cannot grow.
pub open spec fn register_outcome(event: Event) -> Result<u32, ErrorCode> {
    if event.registered_attentees == event.total_attentees {
        Err(ErrorCode::RegistrationCompleted)
    } else if event.registered_attentees == u32::MAX {
        Err(ErrorCode::OverflowError)
    } else {
        Ok((event.registered_attentees + 1) as u32)
    }
}

/// What cancelling does to an event's count of registrations.
pub open spec fn cancel_outcome(event: Event) -> Result<u32, ErrorCode> {
    if event.registered_attentees == 0 {
        Err(ErrorCode::OverflowError)
    } else {
        Ok((event.registered_attentees - 1) as u32)
    }
}

/// The event with its count of registrations replaced.
pub open spec fn with_registered(event: Event, registered: u32) -> Event {
    Event { registered_attentees: registered, ..event }
}

/// Registers the signer for an event. A refused registration changes
/// nothing; an accepted one writes a fresh registration and counts it.
pub fn register_event(ctx: &mut RegisterEvent) -> (r: Result<(), ErrorCode>)
    ensures
        match register_outcome(old(ctx).event_account) {
            Err(e) => r == Err::<(), ErrorCode>(e) && *final(ctx) == *old(ctx),
            Ok(n) => {
                &&& r is Ok
                &&& final(ctx).attentee == old(ctx).attentee
                &&& final(ctx).event_account_key == old(ctx).event_account_key
                &&& final(ctx).event_account == with_registered(old(ctx).event_account, n)
                &&& final(ctx).registration_account == (EventRegistration {
                    event: old(ctx).event_account_key,
                    attentee: old(ctx).attentee,
                    registered: true,
                    attented: false,
                    attentence_nft_minted: false,
                })
            },
        },
{
    if ctx.event_account.registered_attentees == ctx.event_account.total_attentees {
        return Err(ErrorCode::RegistrationCompleted);
    }
    let registered = match ctx.event_account.registered_attentees.checked_add(1) {
        Some(n) => n,
        None => return Err(ErrorCode::OverflowError),
    };
    ctx.registration_account = EventRegistration {
        event: ctx.event_account_key,
        attentee: ctx.attentee,
        registered: true,
        attented: false,
        attentence_nft_minted: false,
    };
    ctx.event_account.registered_attentees = registered;
    Ok(())
}

/// Cancels the signer's registration: the event counts one registration
/// fewer, refused when it counts none. The registration account's lamports
/// go back to the attendee.
pub fn cancel_registration(ctx: &mut CancelRegistration) -> (r: Result<(), ErrorCode>)
    ensures
        match cancel_outcome(old(ctx).event_account) {
            Err(e) => r == Err::<(), ErrorCode>(e) && *final(ctx) == *old(ctx),
            Ok(n) => {
                &&& r is Ok
                &&& final(ctx).attentee == old(ctx).attentee
                &&& final(ctx).event_account_key == old(ctx).event_account_key
                &&& final(ctx).registration_account == old(ctx).registration_account
                &&& final(ctx).event_account == with_registered(old(ctx).event_account, n)
            },
        },
{
    match ctx.event_account.registered_attentees.checked_sub(1) {
        Some(n) => {
            ctx.event_account.registered_attentees = n;
            Ok(())
        },
        None => Err(ErrorCode::OverflowError),
    }
}

/// Why minting is refused, checked in this order: a wrong attendance code,
/// an NFT already minted for this registration, a time outside the event's
/// window `[start_time, end_time]`.
pub open spec fn mint_refusal(
    event: Event,
    registration: EventRegistration,
    attentance_code: [u8; 32],
    now: i64,
) -> Option<ErrorCode> {
    if attentance_code@ != event.attentance_code@ {
        Some(ErrorCode::InvalidAttentanceCode)
    } else if registration.attentence_nft_minted {
        Some(ErrorCode::NftAlreadyMinted)
    } else if now < event.start_time || now > event.end_time {
        Some(ErrorCode::NotMinitingTime)
    } else {
        None
    }
}

/// The name of the attendance NFT: the event's name followed by its count of
/// registrations in decimal.
pub open spec fn nft_name(event: Event) -> Seq<char> {
    event.name@ + decimal(event.registered_attentees as nat)
}

/// Mints the signer's attendance NFT at time `now`.
///
/// A refusal changes nothing. Otherwise the registration is marked attended
/// and minted, and the plan mints one token of the attendee's NFT mint,
/// named after the event and its count of registrations, linked like the
/// event, with no creators, a master edition of supply 0, and sized
/// membership of the event's collection.
pub fn mint_nft(ctx: &mut MintNft, attentance_code: [u8; 32], now: i64) -> (r: Result<
    MintPlan,
    ErrorCode,
>)
    ensures
        match mint_refusal(
            old(ctx).event_account,
            old(ctx).registration_account,
            attentance_code,
            now,
        ) {
            Some(e) => r == Err::<MintPlan, ErrorCode>(e) && *final(ctx) == *old(ctx),
            None => {
                &&& final(ctx).attentee == old(ctx).attentee
                &&& final(ctx).event_account == old(ctx).event_account
                &&& final(ctx).event_account_key == old(ctx).event_account_key
                &&& final(ctx).collection_mint == old(ctx).collection_mint
                &&& final(ctx).collection_mint_bump == old(ctx).collection_mint_bump
                &&& final(ctx).nft_mint == old(ctx).nft_mint
                &&& final(ctx).registration_account == (EventRegistration {
                    attented: true,
                    attentence_nft_minted: true,
                    ..old(ctx).registration_account
                })
                &&& r matches Ok(plan) && {
                    &&& seeds_view(plan.signer_seeds@) == collection_signer_seeds(
                        old(ctx).event_account.name@,
                        old(ctx).collection_mint_bump,
                    )
                    &&& plan.mint_amount == 1
                    &&& plan.max_supply == Some(0u64)
                    &&& plan.metadata.name@ == nft_name(old(ctx).event_account)
                    &&& plan.metadata.symbol@ == SYMBOL@
                    &&& plan.metadata.uri == old(ctx).event_account.url
                    &&& plan.metadata.seller_fee_basis_points == 0
                    &&& plan.metadata.creators is None
                    &&& plan.metadata.collection is None
                    &&& plan.metadata.uses is None
                    &&& plan.metadata.is_mutable
                    &&& plan.metadata.update_authority_is_signer
                    &&& plan.metadata.collection_size is None
                    &&& plan.verification matches CollectionVerification::SetAndVerifySizedItem {
                        collection_authority_record,
                    } && collection_authority_record is None
                }
            },
        },
{
    if !bytes32_eq(&attentance_code, &ctx.event_account.attentance_code) {
        return Err(ErrorCode::InvalidAttentanceCode);
    }
    if ctx.registration_account.attentence_nft_minted {
        return Err(ErrorCode::NftAlreadyMinted);
    }
    if now < ctx.event_account.start_time || now > ctx.event_account.end_time {
        return Err(ErrorCode::NotMinitingTime);
    }
    ctx.registration_account.attentence_nft_minted = true;

    let mut name = ctx.event_account.name.clone();
    let count = u32_to_decimal(ctx.event_account.registered_attentees);
    name.append(count.as_str());
    let uri = ctx.event_account.url.clone();
    let signer_seeds = collection_signer(
        ctx.event_account.name.as_str(),
        ctx.collection_mint_bump,
    );
    let metadata = TokenMetadata {
        name,
        symbol: String::from_str(SYMBOL),
        uri,
        seller_fee_basis_points: 0,
        creators: None,
        collection: None,
        uses: None,
        is_mutable: true,
        update_authority_is_signer: true,
        collection_size: None,
    };

    ctx.registration_account.attentence_nft_minted = true;
    ctx.registration_account.attented = true;
    Ok(
        MintPlan {
            signer_seeds,
            mint_amount: 1,
            metadata,
            max_supply: Some(0),
            verification: CollectionVerification::SetAndVerifySizedItem {
                collection_authority_record: None,
            },
        },
    )
}

// ---------------------------------------------------------------------------
// Laws

/// An event as `initialize_event` accepts it starts after it ends, so no
/// moment lies in its window: until the event is edited, no attendee can mint,
/// whatever code and time they give.
pub proof fn lemma_new_event_never_mints(
    payer: Pubkey,
    name: String,
    description: String,
    url: String,
    attentance_code: [u8; 32],
    start_time: i64,
    end_time: i64,
    total_attentees: u32,
    collection_mint: Pubkey,
    registration: EventRegistration,
    code: [u8; 32],
    now: i64,
)
    requires
        start_time > end_time,
    ensures
        mint_refusal(
            new_event(
                payer,
                name,
                description,
                url,
                attentance_code,
                start_time,
                end_time,
                total_attentees,
                collection_mint,
            ),
            registration,
            code,
            now,
        ) is Some,
{
}

/// Events with different names, or different creators, have different
/// address seeds.
pub proof fn lemma_event_seeds_distinct(c1: Pubkey, n1: Seq<char>, c2: Pubkey, n2: Seq<char>)
    requires
        event_seeds(c1, n1) == event_seeds(c2, n2),
    ensures
        c1.bytes@ == c2.bytes@,
        n1 == n2,
{
    assert(event_seeds(c1, n1)[1] == event_seeds(c2, n2)[1]);
    assert(event_seeds(c1, n1)[2] == event_seeds(c2, n2)[2]);
    vstd::utf8::encode_utf8_decode_utf8(n1);
    vstd::utf8::encode_utf8_decode_utf8(n2);
}

/// Collection mints, and collection token accounts, of events with
/// different names have different addresses; neither depends on the
/// creator.
pub proof fn lemma_collection_mint_seeds_distinct(n1: Seq<char>, n2: Seq<char>)
    ensures
        collection_mint_seeds(n1) == collection_mint_seeds(n2) <==> n1 == n2,
        collection_token_seeds(n1) == collection_token_seeds(n2) <==> n1 == n2,
{
    if collection_mint_seeds(n1) == collection_mint_seeds(n2) || collection_token_seeds(n1)
        == collection_token_seeds(n2) {
        assert(collection_mint_seeds(n1)[1] == collection_mint_seeds(n2)[1]
            || collection_token_seeds(n1)[1] == collection_token_seeds(n2)[1]);
        vstd::utf8::encode_utf8_decode_utf8(n1);
        vstd::utf8::encode_utf8_decode_utf8(n2);
    }
}

/// One registration address and one NFT mint address per (event,
/// attendee): different events or attendees give different addresses.
pub proof fn lemma_attendee_seeds_distinct(e1: Pubkey, a1: Pubkey, e2: Pubkey, a2: Pubkey)
    ensures
        registration_seeds(e1, a1) == registration_seeds(e2, a2) <==> (e1.bytes@ == e2.bytes@
            && a1.bytes@ == a2.bytes@),
        nft_mint_seeds(e1, a1) == nft_mint_seeds(e2, a2) <==> (e1.bytes@ == e2.bytes@
            && a1.bytes@ == a2.bytes@),
{
    if registration_seeds(e1, a1) == registration_seeds(e2, a2) {
        assert(registration_seeds(e1, a1)[1] == registration_seeds(e2, a2)[1]);
        assert(registration_seeds(e1, a1)[2] == registration_seeds(e2, a2)[2]);
    }
    if nft_mint_seeds(e1, a1) == nft_mint_seeds(e2, a2) {
        assert(nft_mint_seeds(e1, a1)[1] == nft_mint_seeds(e2, a2)[1]);
        assert(nft_mint_seeds(e1, a1)[2] == nft_mint_seeds(e2, a2)[2]);
    }
}

/// Registering never takes the count past the number of seats when it
/// started within it.
pub proof fn lemma_register_keeps_within_seats(event: Event)
    requires
        event.registered_attentees <= event.total_attentees,
    ensures
        register_outcome(event) matches Ok(n) ==> n <= event.total_attentees,
        register_outcome(event) is Err ==> event.registered_attentees == event.total_attentees,
{
}

/// Cancelling never takes the count past the number of seats when it
/// started within it.
pub proof fn lemma_cancel_keeps_within_seats(event: Event)
    requires
        event.registered_attentees <= event.total_attentees,
    ensures
        cancel_outcome(event) matches Ok(n) ==> n <= event.total_attentees,
{
}

/// Cancelling right after registering gives back the count of
/// registrations the event had.
pub proof fn lemma_register_then_cancel(event: Event)
    requires
        register_outcome(event) is Ok,
    ensures
        cancel_outcome(with_registered(event, register_outcome(event)->Ok_0)) == Ok::<
            u32,
            ErrorCode,
        >(event.registered_attentees),
{
}

/// Once a registration has minted its NFT, every further mint for it is
/// refused, whatever code and time are given.
pub proof fn lemma_mint_at_most_once(
    event: Event,
    registration: EventRegistration,
    code: [u8; 32],
    now: i64,
    later_code: [u8; 32],
    later: i64,
)
    requires
        mint_refusal(event, registration, code, now) is None,
    ensures
        mint_refusal(
            event,
            (EventRegistration {
                attented: true,
                attentence_nft_minted: true,
                ..registration
            }),
            later_code,
            later,
        ) is Some,
{
}

/// The collection mint signs the attendance NFTs of an event with the same
/// seeds as it signed the collection with, and those seeds are its own
/// address seeds followed by its bump.
pub proof fn lemma_collection_signer_is_collection_mint(name: Seq<char>, bump: u8)
    ensures
        collection_signer_seeds(name, bump).take(2) == collection_mint_seeds(name),
        collection_signer_seeds(name, bump)[2] == seq![bump],
{
    assert(collection_signer_seeds(name, bump).take(2) =~= collection_mint_seeds(name));
}

// ---------------------------------------------------------------------------
// One attendee's accounts over a run of instructions

/// An instruction that bears on one attendee of one event: the attendee
/// registers, cancels or mints, or the event itself changes in any way
/// (edited by its creator, other attendees registering or cancelling,
/// closed and created again under the same address).
pub enum AttendeeStep {
    Register,
    Cancel,
    Mint { attentance_code: [u8; 32], now: i64 },
    EventChanged { event: Event },
}

/// What exists on chain for one attendee of one event: the event, the
/// attendee's registration while its account (at `registration_seeds`) is
/// open, and whether the attendee's NFT mint account (at `nft_mint_seeds`)
/// exists. `register_event` creates the registration account and
/// `mint_nft` the NFT mint account, so each is refused while its account
/// exists already; `cancel_registration` closes the registration account,
/// and no instruction closes the NFT mint account.
pub struct AttendeeLedger {
    pub event: Event,
    pub registration: Option<EventRegistration>,
    pub nft_mint_exists: bool,
}

/// The accounts after one step, or `None` when the step is refused (and so
/// changes nothing). The decisions are those of `register_event`,
/// `cancel_registration` and `mint_nft`.
pub open spec fn attendee_step(
    l: AttendeeLedger,
    event_key: Pubkey,
    attentee: Pubkey,
    step: AttendeeStep,
) -> Option<AttendeeLedger> {
    match step {
        AttendeeStep::Register => {
            if l.registration is Some {
                None
            } else {
                match register_outcome(l.event) {
                    Err(_) => None,
                    Ok(n) => Some(
                        AttendeeLedger {
                            event: with_registered(l.event, n),
                            registration: Some(
                                EventRegistration {
                                    event: event_key,
                                    attentee,
                                    registered: true,
                                    attented: false,
                                    attentence_nft_minted: false,
                                },
                            ),
                            nft_mint_exists: l.nft_mint_exists,
                        },
                    ),
                }
            }
        },
        AttendeeStep::Cancel => {
            match l.registration {
                None => None,
                Some(_) => match cancel_outcome(l.event) {
                    Err(_) => None,
                    Ok(n) => Some(
                        AttendeeLedger {
                            event: with_registered(l.event, n),
                            registration: None,
                            nft_mint_exists: l.nft_mint_exists,
                        },
                    ),
                },
            }
        },
        AttendeeStep::Mint { attentance_code, now } => {
            match l.registration {
                None => None,
                Some(reg) => {
                    if l.nft_mint_exists || mint_refusal(l.event, reg, attentance_code, now) is Some {
                        None
                    } else {
                        Some(
                            AttendeeLedger {
                                event: l.event,
                                registration: Some(
                                    EventRegistration {
                                        attented: true,
                                        attentence_nft_minted: true,
                                        ..reg
                                    },
                                ),
                                nft_mint_exists: true,
                            },
                        )
                    }
                },
            }
        },
        AttendeeStep::EventChanged { event } => Some(
            AttendeeLedger {
                event,
                registration: l.registration,
                nft_mint_exists: l.nft_mint_exists,
            },
        ),
    }
}

/// How many mints go through over a run of steps, each refused step
/// leaving the accounts as they were.
pub open spec fn successful_mints(
    l: AttendeeLedger,
    event_key: Pubkey,
    attentee: Pubkey,
    steps: Seq<AttendeeStep>,
) -> nat
    decreases steps.len(),
{
    if steps.len() == 0 {
        0
    } else {
        match attendee_step(l, event_key, attentee, steps[0]) {
            None => successful_mints(l, event_key, attentee, steps.drop_first()),
            Some(next) => (if steps[0] is Mint {
                1nat
            } else {
                0nat
            }) + successful_mints(next, event_key, attentee, steps.drop_first()),
        }
    }
}

/// Each attendee mints at most one attendance NFT per event, across any run
/// of registrations, cancellations, mints and changes to the event: none at
/// all once the attendee's NFT mint account exists, and at most one before.
pub proof fn lemma_one_nft_per_attendee(
    l: AttendeeLedger,
    event_key: Pubkey,
    attentee: Pubkey,
    steps: Seq<AttendeeStep>,
)
    ensures
        successful_mints(l, event_key, attentee, steps) <= 1,
        l.nft_mint_exists ==> successful_mints(l, event_key, attentee, steps) == 0,
    decreases steps.len(),
{
    if steps.len() > 0 {
        let rest = steps.drop_first();
        match attendee_step(l, event_key, attentee, steps[0]) {
            None => {
                lemma_one_nft_per_attendee(l, event_key, attentee, rest);
            },
            Some(next) => {
                lemma_one_nft_per_attendee(next, event_key, attentee, rest);
                assert(l.nft_mint_exists ==> next.nft_mint_exists);
                assert(steps[0] is Mint ==> next.nft_mint_exists && !l.nft_mint_exists);
            },
        }
    }
}

// ---------------------------------------------------------------------------
// What each decision is, in terms of its inputs

/// The event `initialize_event` writes holds exactly what it was given: it
/// belongs to the payer, keeps its name, description, link, attendance
/// code, time window, seats and collection, and counts no registrations.
pub proof fn lemma_new_event_fields(
    payer: Pubkey,
    name: String,
    description: String,
    url: String,
    attentance_code: [u8; 32],
    start_time: i64,
    end_time: i64,
    total_attentees: u32,
    collection_mint: Pubkey,
)
    ensures
        ({
            let e = new_event(
                payer,
                name,
                description,
                url,
                attentance_code,
                start_time,
                end_time,
                total_attentees,
                collection_mint,
            );
            &&& e.creator == payer
            &&& e.name == name
            &&& e.description == description
            &&& e.url == url
            &&& e.attentance_code == attentance_code
            &&& e.start_time == start_time
            &&& e.end_time == end_time
            &&& e.total_attentees == total_attentees
            &&& e.registered_attentees == 0
            &&& e.collection_mint == collection_mint
        }),
{
}

/// Minting is refused exactly when the code is wrong, the registration has
/// minted already, or `now` lies outside `[start_time, end_time]`; the seat
/// counts play no part. The first of these that holds names the refusal.
pub proof fn lemma_mint_refusal_exactly(
    event: Event,
    registration: EventRegistration,
    attentance_code: [u8; 32],
    now: i64,
)
    ensures
        mint_refusal(event, registration, attentance_code, now) is None <==> (attentance_code@
            == event.attentance_code@ && !registration.attentence_nft_minted && event.start_time
            <= now && now <= event.end_time),
        attentance_code@ != event.attentance_code@ ==> mint_refusal(
            event,
            registration,
            attentance_code,
            now,
        ) == Some(ErrorCode::InvalidAttentanceCode),
        attentance_code@ == event.attentance_code@ && registration.attentence_nft_minted
            ==> mint_refusal(event, registration, attentance_code, now) == Some(
            ErrorCode::NftAlreadyMinted,
        ),
        attentance_code@ == event.attentance_code@ && !registration.attentence_nft_minted && (now
            < event.start_time || now > event.end_time) ==> mint_refusal(
            event,
            registration,
            attentance_code,
            now,
        ) == Some(ErrorCode::NotMinitingTime),
{
}

/// The attendance NFT's name is the event's name followed by nothing but
/// decimal digits, which read back as the event's count of registrations.
pub proof fn lemma_nft_name_reads_back(event: Event)
    ensures
        ({
            let n = nft_name(event);
            let k = event.name@.len() as int;
            &&& n.len() > k
            &&& n.take(k) == event.name@
            &&& all_digits(n.skip(k))
            &&& decimal_value(n.skip(k)) == event.registered_attentees as int
        }),
{
    let n = nft_name(event);
    let k = event.name@.len() as int;
    lemma_decimal_reads_back(event.registered_attentees as nat);
    assert(n.take(k) =~= event.name@);
    assert(n.skip(k) =~= decimal(event.registered_attentees as nat));
}

/// Registering is refused exactly when every seat is taken or the count is
/// at its largest; otherwise the count grows by one. A full event is
/// refused with `RegistrationCompleted`.
pub proof fn lemma_register_outcome_exactly(event: Event)
    ensures
        register_outcome(event) is Ok <==> (event.registered_attentees != event.total_attentees
            && event.registered_attentees < u32::MAX),
        register_outcome(event) matches Ok(n) ==> n == event.registered_attentees + 1,
        event.registered_attentees == event.total_attentees ==> register_outcome(event) == Err::<
            u32,
            ErrorCode,
        >(ErrorCode::RegistrationCompleted),
        event.registered_attentees != event.total_attentees && event.registered_attentees
            == u32::MAX ==> register_outcome(event) == Err::<u32, ErrorCode>(
            ErrorCode::OverflowError,
        ),
{
}

/// Cancelling is refused, with `OverflowError`, exactly when the event
/// counts no registrations; otherwise the count drops by one.
pub proof fn lemma_cancel_outcome_exactly(event: Event)
    ensures
        cancel_outcome(event) is Ok <==> event.registered_attentees > 0,
        cancel_outcome(event) matches Ok(n) ==> n + 1 == event.registered_attentees,
        event.registered_attentees == 0 ==> cancel_outcome(event) == Err::<u32, ErrorCode>(
            ErrorCode::OverflowError,
        ),
{
}

/// Replacing the count of registrations changes that count and nothing
/// else of the event.
pub proof fn lemma_with_registered_fields(event: Event, registered: u32)
    ensures
        ({
            let e = with_registered(event, registered);
            &&& e.registered_attentees == registered
            &&& e.creator == event.creator
            &&& e.name == event.name
            &&& e.description == event.description
            &&& e.url == event.url
            &&& e.attentance_code == event.attentance_code
            &&& e.start_time == event.start_time
            &&& e.end_time == event.end_time
            &&& e.total_attentees == event.total_attentees
            &&& e.collection_mint == event.collection_mint
        }),
{
}

// ---------------------------------------------------------------------------
// The registry's accounts over a run of instructions

/// An instruction of the registry, as far as the accounts it creates and
/// closes go.
pub enum EventsInstruction {
    InitializeEvent { payer: Pubkey, name: String, start_time: i64, end_time: i64 },
    CloseEvent { creator: Pubkey, name: String },
    RegisterEvent { event: Pubkey, attentee: Pubkey },
    CancelRegistration { event: Pubkey, attentee: Pubkey },
    MintNft { event: Pubkey, attentee: Pubkey },
}

/// The registry's accounts after an instruction, or `None` when it is
/// refused (and so changes nothing). `initialize_event` creates the event,
/// its collection mint and the collection's token account, and refuses an
/// inverted time window; `close_event` closes the event;
/// `register_event` creates a registration and `cancel_registration` closes
/// it; `mint_nft` creates the attendee's NFT mint. No instruction closes a
/// collection mint or an NFT mint. An instruction let through here may still
/// be refused by its handler's own checks.
pub open spec fn events_accounts_after(existing: AccountSet, ix: EventsInstruction) -> Option<
    AccountSet,
> {
    match ix {
        EventsInstruction::InitializeEvent { payer, name, start_time, end_time } => {
            if start_time <= end_time {
                None
            } else {
                accounts_after_init(
                    existing,
                    seq![
                        event_seeds(payer, name@),
                        collection_mint_seeds(name@),
                        collection_token_seeds(name@),
                    ],
                )
            }
        },
        EventsInstruction::CloseEvent { creator, name } => accounts_after_close(
            existing,
            event_seeds(creator, name@),
        ),
        EventsInstruction::RegisterEvent { event, attentee } => accounts_after_init(
            existing,
            seq![registration_seeds(event, attentee)],
        ),
        EventsInstruction::CancelRegistration { event, attentee } => accounts_after_close(
            existing,
            registration_seeds(event, attentee),
        ),
        EventsInstruction::MintNft { event, attentee } => accounts_after_init(
            existing,
            seq![nft_mint_seeds(event, attentee)],
        ),
    }
}

/// How many events named `name` are created over a run of instructions,
/// each refused instruction leaving the accounts as they were.
pub open spec fn events_created_named(
    existing: AccountSet,
    ixs: Seq<EventsInstruction>,
    name: Seq<char>,
) -> nat
    decreases ixs.len(),
{
    if ixs.len() == 0 {
        0
    } else {
        match events_accounts_after(existing, ixs[0]) {
            None => events_created_named(existing, ixs.drop_first(), name),
            Some(next) => (if ixs[0] matches EventsInstruction::InitializeEvent { name: n, .. }
                && n@ == name {
                1nat
            } else {
                0nat
            }) + events_created_named(next, ixs.drop_first(), name),
        }
    }
}

/// An event name is taken once for good, whoever the creator: over any run
/// of instructions at most one event with a given name is created, and none
/// once that name's collection mint exists, even after the first event is
/// closed.
pub proof fn lemma_one_event_per_name(existing: AccountSet, ixs: Seq<EventsInstruction>, name: Seq<char>)
    ensures
        events_created_named(existing, ixs, name) <= 1,
        existing.contains(collection_mint_seeds(name)) ==> events_created_named(existing, ixs, name)
            == 0,
    decreases ixs.len(),
{
    if ixs.len() > 0 {
        let rest = ixs.drop_first();
        let mint = collection_mint_seeds(name);
        match events_accounts_after(existing, ixs[0]) {
            None => {
                lemma_one_event_per_name(existing, rest, name);
            },
            Some(next) => {
                lemma_one_event_per_name(next, rest, name);
                match ixs[0] {
                    EventsInstruction::InitializeEvent { payer, name: n, start_time, end_time } => {
                        let created = seq![
                            event_seeds(payer, n@),
                            collection_mint_seeds(n@),
                            collection_token_seeds(n@),
                        ];
                        lemma_accounts_after_init(existing, created);
                        assert(existing.contains(mint) ==> next.contains(mint));
                        if n@ == name {
                            assert(created[1] == mint);
                            assert(!existing.contains(mint) && next.contains(mint));
                        }
                    },
                    EventsInstruction::CloseEvent { creator, name: n } => {
                        assert(event_seeds(creator, n@).len() != mint.len());
                        assert(existing.contains(mint) ==> next.contains(mint));
                    },
                    EventsInstruction::RegisterEvent { event, attentee } => {
                        lemma_accounts_after_init(existing, seq![registration_seeds(event, attentee)]);
                    },
                    EventsInstruction::CancelRegistration { event, attentee } => {
                        assert(registration_seeds(event, attentee).len() != mint.len());
                        assert(existing.contains(mint) ==> next.contains(mint));
                    },
                    EventsInstruction::MintNft { event, attentee } => {
                        lemma_accounts_after_init(existing, seq![nft_mint_seeds(event, attentee)]);
                    },
                }
            },
        }
    }
}

} // verus!
