//! Attestation records, the registry that stores them, and the single
//! operation that creates one.
use vstd::prelude::*;
use vstd::utf8::encode_utf8;
use crate::address::address_view;
use crate::address::derived_address;
use crate::address::find_attestation_address;

verus! {

/// Longest analysis identifier accepted, in bytes.
pub const MAX_ANALYSIS_ID_LEN: usize = 64;

/// Length of a hex-encoded 256-bit digest, in bytes.
pub const HASH_HEX_LEN: usize = 64;

/// Bytes reserved for one attestation account: an 8-byte discriminator, the
/// authority, three length-prefixed strings of at most 64 bytes, the
/// timestamp and the bump.
pub const ATTESTATION_SPACE: usize = 8 + 32 + (4 + 64) + (4 + 64) + (4 + 64) + 8 + 1;

/// Why an attestation was refused.
#[derive(Clone, Copy, Debug, PartialEq, Eq, Structural)]
pub enum ErrorCode {
    /// The analysis identifier is longer than 64 bytes.
    AnalysisIdTooLong,
    /// A hash is not exactly 64 bytes long.
    InvalidHashLength,
    /// The derived storage address already holds an attestation.
    AccountAlreadyInUse,
    /// No bump gives an address off the signing-key curve.
    NoViableBump,
    /// The trusted clock could not be read.
    ClockUnavailable,
}

/// An immutable record binding an analysis to its hashes, signer and time.
#[derive(Clone, Debug)]
pub struct Attestation {
    /// Authority that created the attestation.
    pub authority: [u8; 32],
    /// Unique identifier of the analysis.
    pub analysis_id: String,
    /// SHA-256 digest of the analysis inputs, as hex.
    pub analysis_hash: String,
    /// SHA-256 digest of the generated report, as hex.
    pub report_hash: String,
    /// Unix time of the attestation, in seconds.
    pub timestamp: i64,
    /// Bump of the record's derived address.
    pub bump: u8,
}

/// An attestation as plain values.
pub struct AttestationView {
    pub authority: Seq<u8>,
    pub analysis_id: Seq<char>,
    pub analysis_hash: Seq<char>,
    pub report_hash: Seq<char>,
    pub timestamp: i64,
    pub bump: u8,
}

impl View for Attestation {
    type V = AttestationView;

    open spec fn view(&self) -> AttestationView {
        AttestationView {
            authority: self.authority@,
            analysis_id: self.analysis_id@,
            analysis_hash: self.analysis_hash@,
            report_hash: self.report_hash@,
            timestamp: self.timestamp,
            bump: self.bump,
        }
    }
}

/// The notification published when an attestation is created.
#[derive(Clone, Debug)]
pub struct AttestationCreated {
    pub authority: [u8; 32],
    pub analysis_id: String,
    pub analysis_hash: String,
    pub report_hash: String,
    pub timestamp: i64,
}

/// A notification as plain values.
pub struct AttestationCreatedView {
    pub authority: Seq<u8>,
    pub analysis_id: Seq<char>,
    pub analysis_hash: Seq<char>,
    pub report_hash: Seq<char>,
    pub timestamp: i64,
}

impl View for AttestationCreated {
    type V = AttestationCreatedView;

    open spec fn view(&self) -> AttestationCreatedView {
        AttestationCreatedView {
            authority: self.authority@,
            analysis_id: self.analysis_id@,
            analysis_hash: self.analysis_hash@,
            report_hash: self.report_hash@,
            timestamp: self.timestamp,
        }
    }
}

/// What one attestation call is given besides its arguments: the signer,
/// and the reading of the trusted clock (`None` where it is unavailable).
#[derive(Clone, Copy, Debug)]
pub struct AttestAnalysis {
    pub authority: [u8; 32],
    pub clock: Option<i64>,
}

/// A stored account: an attestation at its address.
#[derive(Clone, Debug)]
pub struct Account {
    pub address: [u8; 32],
    pub data: Attestation,
}

/// The attestations of one program, each at its own address, and the
/// notifications published so far, oldest first.
pub struct Registry {
    program_id: [u8; 32],
    accounts: Vec<Account>,
    events: Vec<AttestationCreated>,
}

/// A registry as plain values.
pub struct RegistryView {
    pub program_id: Seq<u8>,
    pub accounts: Seq<(Seq<u8>, AttestationView)>,
    pub events: Seq<AttestationCreatedView>,
}

impl RegistryView {
    /// Whether an account is stored at `address`.
    pub open spec fn occupied(self, address: Seq<u8>) -> bool {
        exists|i: int| 0 <= i < self.accounts.len() && #[trigger] self.accounts[i].0 == address
    }

    /// No two accounts share an address.
    pub open spec fn addresses_distinct(self) -> bool {
        forall|i: int, j: int|
            0 <= i < self.accounts.len() && 0 <= j < self.accounts.len() && i != j ==> (
            #[trigger] self.accounts[i]).0 != (#[trigger] self.accounts[j]).0
    }
}

impl View for Registry {
    type V = RegistryView;

    closed spec fn view(&self) -> RegistryView {
        RegistryView {
            program_id: self.program_id@,
            accounts: self.accounts@.map_values(|a: Account| (a.address@, a.data@)),
            events: self.events@.map_values(|e: AttestationCreated| e@),
        }
    }
}

/// The UTF-8 length of a string, in bytes.
pub open spec fn byte_len(s: Seq<char>) -> nat {
    encode_utf8(s).len()
}

/// The first rule that the arguments break, if any: the identifier's length,
/// then the analysis hash's, then the report hash's.
pub open spec fn validation_error(
    analysis_id: Seq<char>,
    analysis_hash: Seq<char>,
    report_hash: Seq<char>,
) -> Option<ErrorCode> {
    if byte_len(analysis_id) > MAX_ANALYSIS_ID_LEN {
        Some(ErrorCode::AnalysisIdTooLong)
    } else if byte_len(analysis_hash) != HASH_HEX_LEN {
        Some(ErrorCode::InvalidHashLength)
    } else if byte_len(report_hash) != HASH_HEX_LEN {
        Some(ErrorCode::InvalidHashLength)
    } else {
        None
    }
}

/// The registry after an attestation call, or the error that refuses it,
/// given the address and bump (`derived`) that the derivation found.
pub open spec fn attest_outcome(
    reg: RegistryView,
    ctx: AttestAnalysis,
    analysis_id: Seq<char>,
    analysis_hash: Seq<char>,
    report_hash: Seq<char>,
    derived: Option<(Seq<u8>, u8)>,
) -> Result<RegistryView, ErrorCode> {
    match validation_error(analysis_id, analysis_hash, report_hash) {
        Some(e) => Err(e),
        None => match derived {
            None => Err(ErrorCode::NoViableBump),
            Some((address, bump)) => if reg.occupied(address) {
                Err(ErrorCode::AccountAlreadyInUse)
            } else {
                match ctx.clock {
                    None => Err(ErrorCode::ClockUnavailable),
                    Some(now) => Ok(
                        RegistryView {
                            program_id: reg.program_id,
                            accounts: reg.accounts.push(
                                (
                                    address,
                                    AttestationView {
                                        authority: ctx.authority@,
                                        analysis_id,
                                        analysis_hash,
                                        report_hash,
                                        timestamp: now,
                                        bump,
                                    },
                                ),
                            ),
                            events: reg.events.push(
                                AttestationCreatedView {
                                    authority: ctx.authority@,
                                    analysis_id,
                                    analysis_hash,
                                    report_hash,
                                    timestamp: now,
                                },
                            ),
                        },
                    ),
                }
            },
        },
    }
}

/// The outcome of an attestation call on `reg`, with the address derived
/// from the identifier under the registry's program.
pub open spec fn attest_spec(
    reg: RegistryView,
    ctx: AttestAnalysis,
    analysis_id: Seq<char>,
    analysis_hash: Seq<char>,
    report_hash: Seq<char>,
) -> Result<RegistryView, ErrorCode> {
    attest_outcome(
        reg,
        ctx,
        analysis_id,
        analysis_hash,
        report_hash,
        derived_address(reg.program_id, analysis_id),
    )
}

/// Whether `a` and `b` hold the same bytes.
fn same_address(a: &[u8; 32], b: &[u8; 32]) -> (r: bool)
    ensures
        r == (a@ == b@),
{
    let mut i: usize = 0;
    while i < 32
        invariant
            i <= 32,
            a@.len() == 32,
            b@.len() == 32,
            forall|k: int| 0 <= k < i ==> a@[k] == b@[k],
        decreases 32 - i,
    {
        if a[i] != b[i] {
            return false;
        }
        i = i + 1;
    }
    assert(a@ =~= b@);
    true
}

impl Registry {
    /// The registry's invariant: every address holds at most one account.
    pub open spec fn wf(&self) -> bool {
        self@.addresses_distinct()
    }

    /// An empty registry of the program `program_id`.
    pub fn new(program_id: [u8; 32]) -> (r: Registry)
        ensures
            r.wf(),
            r@.program_id == program_id@,
            r@.accounts.len() == 0,
            r@.events.len() == 0,
    {
        Registry { program_id, accounts: Vec::new(), events: Vec::new() }
    }

    /// The program whose attestations this registry holds.
    pub fn program_id(&self) -> (r: [u8; 32])
        ensures
            r@ == self@.program_id,
    {
        self.program_id
    }

    /// The number of attestations stored.
    pub fn len(&self) -> (r: usize)
        ensures
            r == self@.accounts.len(),
    {
        self.accounts.len()
    }

    /// The position of the account stored at `address`, if any.
    fn position(&self, address: &[u8; 32]) -> (r: Option<usize>)
        ensures
            r is None <==> !self@.occupied(address@),
            r matches Some(i) ==> i < self@.accounts.len() && self@.accounts[i as int].0
                == address@,
    {
        let mut i: usize = 0;
        while i < self.accounts.len()
            invariant
                i <= self.accounts@.len(),
                forall|k: int| 0 <= k < i ==> #[trigger] self@.accounts[k].0 != address@,
            decreases self.accounts@.len() - i,
        {
            if same_address(&self.accounts[i].address, address) {
                assert(self@.accounts[i as int].0 == address@);
                return Some(i);
            }
            i = i + 1;
        }
        None
    }

    /// The attestation stored at `address`, if any.
    pub fn get(&self, address: &[u8; 32]) -> (r: Option<&Attestation>)
        requires
            self.wf(),
        ensures
            r is None <==> !self@.occupied(address@),
            r matches Some(a) ==> exists|i: int|
                0 <= i < self@.accounts.len() && #[trigger] self@.accounts[i] == (address@, a@),
    {
        match self.position(address) {
            Some(i) => {
                assert(self@.accounts[i as int] == (address@, self.accounts@[i as int].data@));
                Some(&self.accounts[i].data)
            },
            None => None,
        }
    }

    /// The notifications published so far, oldest first.
    pub fn events(&self) -> (r: &Vec<AttestationCreated>)
        ensures
            r@.map_values(|e: AttestationCreated| e@) == self@.events,
    {
        &self.events
    }

    /// Stores a new attestation at `derived`, the address and bump found for
    /// `analysis_id`, and publishes its notification; or, changing nothing,
    /// returns the first error that applies.
    pub fn record_attestation(
        &mut self,
        ctx: &AttestAnalysis,
        analysis_id: String,
        analysis_hash: String,
        report_hash: String,
        derived: Option<([u8; 32], u8)>,
    ) -> (r: Result<(), ErrorCode>)
        requires
            old(self).wf(),
        ensures
            final(self).wf(),
            match attest_outcome(
                old(self)@,
                *ctx,
                analysis_id@,
                analysis_hash@,
                report_hash@,
                address_view(derived),
            ) {
                Ok(v) => r is Ok && final(self)@ == v,
                Err(e) => r == Err::<(), ErrorCode>(e) && final(self)@ == old(self)@,
            },
    {
        if analysis_id.as_str().as_bytes().len() > MAX_ANALYSIS_ID_LEN {
            return Err(ErrorCode::AnalysisIdTooLong);
        }
        if analysis_hash.as_str().as_bytes().len() != HASH_HEX_LEN {
            return Err(ErrorCode::InvalidHashLength);
        }
        if report_hash.as_str().as_bytes().len() != HASH_HEX_LEN {
            return Err(ErrorCode::InvalidHashLength);
        }
        let (address, bump) = match derived {
            Some(found) => found,
            None => {
                return Err(ErrorCode::NoViableBump);
            },
        };
        if self.position(&address).is_some() {
            return Err(ErrorCode::AccountAlreadyInUse);
        }
        let now = match ctx.clock {
            Some(t) => t,
            None => {
                return Err(ErrorCode::ClockUnavailable);
            },
        };
        let event = AttestationCreated {
            authority: ctx.authority,
            analysis_id: analysis_id.clone(),
            analysis_hash: analysis_hash.clone(),
            report_hash: report_hash.clone(),
            timestamp: now,
        };
        let record = Attestation {
            authority: ctx.authority,
            analysis_id,
            analysis_hash,
            report_hash,
            timestamp: now,
            bump,
        };
        let ghost old_view = self@;
        self.accounts.push(Account { address, data: record });
        self.events.push(event);
        assert(self@.accounts =~= old_view.accounts.push((address@, record@)));
        assert(self@.events =~= old_view.events.push(event@));
        Ok(())
    }
}

/// Attests an analysis: checks the arguments, derives the record's address
/// from `analysis_id`, stores the record there with the signer and the
/// clock's time, and publishes a notification. On an error nothing changes.
pub fn attest_analysis(
    registry: &mut Registry,
    ctx: &AttestAnalysis,
    analysis_id: String,
    analysis_hash: String,
    report_hash: String,
) -> (r: Result<(), ErrorCode>)
    requires
        old(registry).wf(),
    ensures
        final(registry).wf(),
        match attest_spec(old(registry)@, *ctx, analysis_id@, analysis_hash@, report_hash@) {
            Ok(v) => r is Ok && final(registry)@ == v,
            Err(e) => r == Err::<(), ErrorCode>(e) && final(registry)@ == old(registry)@,
        },
{
    if analysis_id.as_str().as_bytes().len() > MAX_ANALYSIS_ID_LEN || analysis_hash.as_str().as_bytes().len()
        != HASH_HEX_LEN || report_hash.as_str().as_bytes().len() != HASH_HEX_LEN {
        // Malformed arguments are refused before any address is derived.
        return registry.record_attestation(ctx, analysis_id, analysis_hash, report_hash, None);
    }
    let program_id = registry.program_id();
    let derived = find_attestation_address(&program_id, &analysis_id);
    registry.record_attestation(ctx, analysis_id, analysis_hash, report_hash, derived)
}

/// An attestation whose arguments are well formed, whose identifier derives
/// to a free address, and whose clock can be read, succeeds: it appends one
/// record holding exactly the arguments, the signer, the clock's time and the
/// bump, and one notification with the same fields.
pub proof fn lemma_first_attestation_succeeds(
    reg: RegistryView,
    ctx: AttestAnalysis,
    analysis_id: Seq<char>,
    analysis_hash: Seq<char>,
    report_hash: Seq<char>,
    address: Seq<u8>,
    bump: u8,
    now: i64,
)
    requires
        byte_len(analysis_id) <= MAX_ANALYSIS_ID_LEN,
        byte_len(analysis_hash) == HASH_HEX_LEN,
        byte_len(report_hash) == HASH_HEX_LEN,
        derived_address(reg.program_id, analysis_id) == Some((address, bump)),
        !reg.occupied(address),
        ctx.clock == Some(now),
    ensures
        attest_spec(reg, ctx, analysis_id, analysis_hash, report_hash) matches Ok(v) && v.accounts
            == reg.accounts.push(
            (
                address,
                AttestationView {
                    authority: ctx.authority@,
                    analysis_id,
                    analysis_hash,
                    report_hash,
                    timestamp: now,
                    bump,
                },
            ),
        ) && v.events.last() == (AttestationCreatedView {
            authority: ctx.authority@,
            analysis_id,
            analysis_hash,
            report_hash,
            timestamp: now,
        }) && v.events.len() == reg.events.len() + 1 && v.program_id == reg.program_id,
{
}

/// Once an identifier has been attested, every later attestation of it with
/// well-formed hashes fails because its address is taken, whoever signs it
/// and whatever hashes it carries.
pub proof fn lemma_second_attestation_rejected(
    reg: RegistryView,
    first: AttestAnalysis,
    second: AttestAnalysis,
    analysis_id: Seq<char>,
    analysis_hash: Seq<char>,
    report_hash: Seq<char>,
    next_analysis_hash: Seq<char>,
    next_report_hash: Seq<char>,
    after: RegistryView,
)
    requires
        attest_spec(reg, first, analysis_id, analysis_hash, report_hash) == Ok::<
            RegistryView,
            ErrorCode,
        >(after),
        byte_len(next_analysis_hash) == HASH_HEX_LEN,
        byte_len(next_report_hash) == HASH_HEX_LEN,
    ensures
        attest_spec(after, second, analysis_id, next_analysis_hash, next_report_hash) == Err::<
            RegistryView,
            ErrorCode,
        >(ErrorCode::AccountAlreadyInUse),
{
    let (address, bump) = derived_address(reg.program_id, analysis_id)->Some_0;
    let last = after.accounts.len() - 1;
    assert(after.accounts[last].0 == address);
}

/// An attestation never changes or removes what is stored: the records and
/// notifications before it stay as they were, in their order.
pub proof fn lemma_records_are_immutable(
    reg: RegistryView,
    ctx: AttestAnalysis,
    analysis_id: Seq<char>,
    analysis_hash: Seq<char>,
    report_hash: Seq<char>,
    after: RegistryView,
)
    requires
        attest_spec(reg, ctx, analysis_id, analysis_hash, report_hash) == Ok::<
            RegistryView,
            ErrorCode,
        >(after),
    ensures
        after.program_id == reg.program_id,
        after.accounts.len() == reg.accounts.len() + 1,
        after.accounts.subrange(0, reg.accounts.len() as int) == reg.accounts,
        after.events.len() == reg.events.len() + 1,
        after.events.subrange(0, reg.events.len() as int) == reg.events,
{
    assert(after.accounts.subrange(0, reg.accounts.len() as int) =~= reg.accounts);
    assert(after.events.subrange(0, reg.events.len() as int) =~= reg.events);
}

} // verus!
