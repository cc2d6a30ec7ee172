use vstd::prelude::*;
use vstd::string::*;

use crate::api::{
    spec_db_error_description, spec_db_error_kind, spec_mismatch_description, ErrorKind,
    ErrorResponse,
};
use crate::database::DbError;
use crate::dates::Date;
use crate::ids::{fresh_id, Id};
use crate::teams::{spec_find_rule, Rule, RuleKind, Team, TimeUnit};

verus! {

/// Per-sanction data supplied by the caller, matched against the kind of the
/// associated rule.
#[derive(Clone, Copy, PartialEq, Eq, Structural, Debug)]
pub enum ExtraInfo {
    Absent,
    Multiplication { factor: u32 },
}

impl ExtraInfo {
    /// The stable machine-readable name of the variant.
    pub open spec fn spec_label(self) -> Seq<char> {
        match self {
            ExtraInfo::Absent => "NONE"@,
            ExtraInfo::Multiplication { .. } => "MULTIPLICATION"@,
        }
    }

    pub fn label(&self) -> (r: String)
        ensures
            r@ == self.spec_label(),
    {
        match self {
            ExtraInfo::Absent => String::from_str("NONE"),
            ExtraInfo::Multiplication { .. } => String::from_str("MULTIPLICATION"),
        }
    }
}

impl Default for ExtraInfo {
    fn default() -> (r: ExtraInfo)
        ensures
            r == ExtraInfo::Absent,
    {
        ExtraInfo::Absent
    }
}

/// The rule reference and extra info attached to a sanction.
#[derive(Clone, Copy, PartialEq, Eq, Structural, Debug)]
pub struct SanctionInfo {
    pub associated_rule: Id,
    pub extra_info: ExtraInfo,
}

impl Default for SanctionInfo {
    fn default() -> (r: SanctionInfo)
        ensures
            r == (SanctionInfo { associated_rule: Id { value: 0 }, extra_info: ExtraInfo::Absent }),
    {
        SanctionInfo { associated_rule: Id { value: 0 }, extra_info: ExtraInfo::Absent }
    }
}

/// The diagnostic report of a mismatch between a sanction's extra info and
/// the kind of its rule.
#[derive(Debug)]
pub struct SanctionInfoError {
    pub associated_rule_name: String,
    pub associated_rule_kind: String,
    pub extra_info: String,
}

/// The price owed for the pairing of an extra-info variant with a rule kind,
/// or nothing when the pairing is a mismatch. Prices are in hundredths of the
/// currency unit.
pub open spec fn spec_price(extra: ExtraInfo, kind: RuleKind) -> Option<int> {
    match extra {
        ExtraInfo::Absent => match kind {
            RuleKind::Basic { price } => Some(price as int),
            _ => None,
        },
        ExtraInfo::Multiplication { factor } => match kind {
            RuleKind::Multiplication { price_to_multiply } => Some(
                price_to_multiply * factor,
            ),
            RuleKind::TimeMultiplication { price_per_time_unit, .. } => Some(
                price_per_time_unit * factor,
            ),
            _ => None,
        },
    }
}

/// Law: against a rule of the basic kind, a sanction carrying no extra info
/// owes exactly the rule's price, whatever that price is.
pub proof fn lemma_basic_price(price: u32)
    ensures
        spec_price(ExtraInfo::Absent, RuleKind::Basic { price }) == Some(price as int),
{
}

/// Law: against a rule of the multiplication kind, a sanction carrying a
/// factor owes the rule's price times the factor; the same formula holds of
/// the time-multiplication kind with its price per time unit.
pub proof fn lemma_multiplication_price(price: u32, factor: u32, time_unit: TimeUnit)
    ensures
        spec_price(
            ExtraInfo::Multiplication { factor },
            RuleKind::Multiplication { price_to_multiply: price },
        ) == Some((price * factor) as int),
        spec_price(
            ExtraInfo::Multiplication { factor },
            RuleKind::TimeMultiplication { price_per_time_unit: price, time_unit },
        ) == Some((price * factor) as int),
{
}

/// Law: every pairing of extra info and rule kind other than the three
/// priced ones, the regular-intervals kind included, owes no price at all:
/// it is a mismatch.
pub proof fn lemma_unmatched_pairing_has_no_price(extra: ExtraInfo, kind: RuleKind)
    requires
        !(extra is Absent && kind is Basic),
        !(extra is Multiplication && kind is Multiplication),
        !(extra is Multiplication && kind is TimeMultiplication),
    ensures
        spec_price(extra, kind) is None,
{
}

/// The product of two 32-bit values fits in 64 bits.
proof fn lemma_u32_mul_fits(a: u32, b: u32)
    ensures
        0 <= (a as int) * (b as int) <= u64::MAX,
{
    assert(0 <= (a as int) * (b as int) <= u64::MAX) by (nonlinear_arith)
        requires
            0 <= a <= u32::MAX,
            0 <= b <= u32::MAX,
    ;
}

impl SanctionInfo {
    /// Matches the extra info against the rule's kind: the owed amount when
    /// the pairing is defined, and otherwise the mismatch report carrying the
    /// rule's name and the names of both kinds.
    pub fn get_price(&self, rule: Rule) -> (r: Result<u64, SanctionInfoError>)
        ensures
            spec_price(self.extra_info, rule.kind) matches Some(p) ==> r matches Ok(v) && v == p,
            spec_price(self.extra_info, rule.kind) is None ==> (r matches Err(e) && {
                &&& e.associated_rule_name@ == rule.name@
                &&& e.associated_rule_kind@ == rule.kind.spec_label()
                &&& e.extra_info@ == self.extra_info.spec_label()
            }),
    {
        let priced: Option<u64> = match self.extra_info {
            ExtraInfo::Absent => match rule.kind {
                RuleKind::Basic { price } => Some(price as u64),
                _ => Option::None,
            },
            ExtraInfo::Multiplication { factor } => match rule.kind {
                RuleKind::Multiplication { price_to_multiply } => {
                    proof {
                        lemma_u32_mul_fits(price_to_multiply, factor);
                    }
                    Some((price_to_multiply as u64) * (factor as u64))
                },
                RuleKind::TimeMultiplication { price_per_time_unit, .. } => {
                    proof {
                        lemma_u32_mul_fits(price_per_time_unit, factor);
                    }
                    Some((price_per_time_unit as u64) * (factor as u64))
                },
                _ => Option::None,
            },
        };
        match priced {
            Some(price) => Ok(price),
            Option::None => Err(
                SanctionInfoError {
                    associated_rule_name: rule.name,
                    associated_rule_kind: rule.kind.label(),
                    extra_info: self.extra_info.label(),
                },
            ),
        }
    }
}

/// A recorded fine against a team member, with its computed price in
/// hundredths of the currency unit.
#[derive(Clone, Copy, PartialEq, Eq, Structural, Debug)]
pub struct Sanction {
    pub id: Id,
    pub user_id: Id,
    pub team_id: Id,
    pub sanction_info: SanctionInfo,
    pub price: u64,
    pub created_at: Date,
}

impl Default for Sanction {
    fn default() -> (r: Sanction)
        ensures
            r == (Sanction {
                id: Id { value: 0 },
                user_id: Id { value: 0 },
                team_id: Id { value: 0 },
                sanction_info: SanctionInfo {
                    associated_rule: Id { value: 0 },
                    extra_info: ExtraInfo::Absent,
                },
                price: 0,
                created_at: Date { year: 2019, month: 10, day: 5 },
            }),
    {
        Sanction {
            id: Id { value: 0 },
            user_id: Id { value: 0 },
            team_id: Id { value: 0 },
            sanction_info: SanctionInfo {
                associated_rule: Id { value: 0 },
                extra_info: ExtraInfo::Absent,
            },
            price: 0,
            created_at: Date { year: 2019, month: 10, day: 5 },
        }
    }
}

/// A validated sanction, ready to be handed to the persistence collaborator.
#[derive(Clone, Copy, PartialEq, Eq, Structural, Debug)]
pub struct CreateSanction {
    pub id: Id,
    pub user_id: Id,
    pub team_id: Id,
    pub sanction_info: SanctionInfo,
    pub price: u64,
    pub created_at: Date,
}

/// A raw request to create one sanction: the member, the rule reference with
/// its extra info, and optionally a client-supplied identifier and an
/// explicit creation date.
#[derive(Clone, Copy, PartialEq, Eq, Structural, Debug)]
pub struct UpdateSanctionRequest {
    pub id: Option<Id>,
    pub user_id: Id,
    pub sanction_info: SanctionInfo,
    pub created_at: Option<Date>,
}

impl CreateSanction {
    /// Assembles the ready-to-persist record for a validated request: the
    /// client-supplied identifier or a fresh one, and the request's creation
    /// date or today's when the request omits one.
    pub fn from_request(request: UpdateSanctionRequest, team_id: Id, price: u64, today: Date) -> (r:
        CreateSanction)
        ensures
            r.user_id == request.user_id,
            r.team_id == team_id,
            r.sanction_info == request.sanction_info,
            r.price == price,
            r.created_at == (match request.created_at {
                Some(d) => d,
                None => today,
            }),
            request.id matches Some(given) ==> r.id == given,
    {
        CreateSanction {
            id: match request.id {
                Some(given) => given,
                None => fresh_id(),
            },
            user_id: request.user_id,
            team_id,
            sanction_info: request.sanction_info,
            price,
            created_at: match request.created_at {
                Some(d) => d,
                None => today,
            },
        }
    }
}

// ------------------------------------------------------------------
// Batch validation
// ------------------------------------------------------------------
/// The price owed for a request against a team's rule catalog, or nothing
/// when the referenced rule is absent or its kind mismatches the extra info.
pub open spec fn spec_request_price(team: Team, req: UpdateSanctionRequest) -> Option<int> {
    match spec_find_rule(team.rules@, req.sanction_info.associated_rule) {
        Some(rule) => spec_price(req.sanction_info.extra_info, rule.kind),
        None => None,
    }
}

/// Whether one request validates against the outcome of the team lookup.
pub open spec fn spec_request_ok(
    team_lookup: Result<Team, DbError>,
    req: UpdateSanctionRequest,
) -> bool {
    team_lookup matches Ok(team) && spec_request_price(team, req) is Some
}

/// Whether every request of the batch validates.
pub open spec fn spec_batch_ok(
    team_lookup: Result<Team, DbError>,
    requests: Seq<UpdateSanctionRequest>,
) -> bool {
    forall|k: int|
        0 <= k < requests.len() ==> spec_request_ok(team_lookup, #[trigger] requests[k])
}

/// The position of the first request that does not validate; meaningful only
/// when some request fails.
pub open spec fn spec_first_bad(
    team_lookup: Result<Team, DbError>,
    requests: Seq<UpdateSanctionRequest>,
) -> int
    decreases requests.len(),
{
    if requests.len() == 0 {
        0
    } else if !spec_request_ok(team_lookup, requests[0]) {
        0
    } else {
        1 + spec_first_bad(team_lookup, requests.drop_first())
    }
}

proof fn lemma_first_bad_at(
    team_lookup: Result<Team, DbError>,
    requests: Seq<UpdateSanctionRequest>,
    k: int,
)
    requires
        0 <= k < requests.len(),
        !spec_request_ok(team_lookup, requests[k]),
        forall|j: int| 0 <= j < k ==> spec_request_ok(team_lookup, #[trigger] requests[j]),
    ensures
        spec_first_bad(team_lookup, requests) == k,
    decreases k,
{
    if k > 0 {
        lemma_first_bad_at(team_lookup, requests.drop_first(), k - 1);
    }
}

/// The kind reported when the team lookup itself failed: a missing team is a
/// dangling team reference.
pub open spec fn spec_team_error_kind(db: DbError) -> ErrorKind {
    match db {
        DbError::NotFound => ErrorKind::BadReference,
        _ => spec_db_error_kind(db),
    }
}

pub open spec fn spec_team_error_description(db: DbError) -> Seq<char> {
    match db {
        DbError::NotFound => "The key team_id doesn't refer to anything"@,
        _ => spec_db_error_description(db),
    }
}

/// The kind reported for the first request that fails to validate.
pub open spec fn spec_batch_error_kind(
    team_lookup: Result<Team, DbError>,
    req: UpdateSanctionRequest,
) -> ErrorKind {
    match team_lookup {
        Err(db) => spec_team_error_kind(db),
        Ok(team) => match spec_find_rule(team.rules@, req.sanction_info.associated_rule) {
            None => ErrorKind::BadReference,
            Some(_) => ErrorKind::NotValid,
        },
    }
}

/// The description reported for the first request that fails to validate.
pub open spec fn spec_batch_error_description(
    team_lookup: Result<Team, DbError>,
    req: UpdateSanctionRequest,
) -> Seq<char> {
    match team_lookup {
        Err(db) => spec_team_error_description(db),
        Ok(team) => match spec_find_rule(team.rules@, req.sanction_info.associated_rule) {
            None => "The key associated_rule doesn't refer to anything"@,
            Some(rule) => spec_mismatch_description(
                req.sanction_info.extra_info.spec_label(),
                rule.name@,
                rule.kind.spec_label(),
            ),
        },
    }
}

/// How a validated record relates to its request.
pub open spec fn spec_record_matches(
    req: UpdateSanctionRequest,
    rec: CreateSanction,
    team: Team,
    team_id: Id,
    today: Date,
) -> bool {
    &&& rec.user_id == req.user_id
    &&& rec.team_id == team_id
    &&& rec.sanction_info == req.sanction_info
    &&& Some(rec.price as int) == spec_request_price(team, req)
    &&& rec.created_at == (match req.created_at {
        Some(d) => d,
        None => today,
    })
    &&& (req.id matches Some(given) ==> rec.id == given)
}

/// Law: a batch holding a request whose rule reference resolves to no rule
/// of the team never validates, whatever the batch's length and wherever the
/// request stands in it.
pub proof fn lemma_batch_rejected_on_dangling_rule(
    team: Team,
    requests: Seq<UpdateSanctionRequest>,
    k: int,
)
    requires
        0 <= k < requests.len(),
        spec_find_rule(team.rules@, requests[k].sanction_info.associated_rule) is None,
    ensures
        !spec_batch_ok(Result::<Team, DbError>::Ok(team), requests),
{
    assert(!spec_request_ok(Result::<Team, DbError>::Ok(team), requests[k]));
}

fn translate_team_error(db: DbError) -> (r: ErrorResponse)
    ensures
        r.kind == spec_team_error_kind(db),
        r.description@ == spec_team_error_description(db),
{
    match db {
        DbError::NotFound => ErrorResponse::from_db_error(
            DbError::ForeignKeyViolation(
                String::from_str("The key team_id doesn't refer to anything"),
            ),
        ),
        other => ErrorResponse::from_db_error(other),
    }
}

/// Validates a whole batch of creation requests against the outcome of the
/// team lookup, strictly in input order and all-or-nothing: either every
/// request resolves its rule and prices, and the complete ready-to-persist
/// set comes back, or the first failure in input order is reported and no
/// record at all is handed out.
#[verifier::loop_isolation(false)]
pub fn validate_batch(
    team_lookup: Result<Team, DbError>,
    requests: Vec<UpdateSanctionRequest>,
    team_id: Id,
    today: Date,
) -> (r: Result<Vec<CreateSanction>, ErrorResponse>)
    ensures
        (r is Ok) <==> spec_batch_ok(team_lookup, requests@),
        r matches Ok(records) ==> records@.len() == requests@.len() && (team_lookup matches Ok(
            team,
        ) ==> forall|k: int|
            0 <= k < requests@.len() ==> spec_record_matches(
                requests@[k],
                #[trigger] records@[k],
                team,
                team_id,
                today,
            )),
        r matches Err(e) ==> ({
            let k = spec_first_bad(team_lookup, requests@);
            &&& 0 <= k < requests@.len()
            &&& !spec_request_ok(team_lookup, requests@[k])
            &&& forall|j: int| 0 <= j < k ==> spec_request_ok(team_lookup, #[trigger] requests@[j])
            &&& e.kind == spec_batch_error_kind(team_lookup, requests@[k])
            &&& e.description@ == spec_batch_error_description(team_lookup, requests@[k])
        }),
{
    let ghost tl = team_lookup;
    let n = requests.len();
    if n == 0 {
        return Ok(Vec::new());
    }
    let team = match team_lookup {
        Ok(t) => t,
        Err(db) => {
            proof {
                lemma_first_bad_at(tl, requests@, 0);
            }
            return Err(translate_team_error(db));
        },
    };
    let mut records: Vec<CreateSanction> = Vec::new();
    for k in 0..n
        invariant
            n == requests@.len(),
            tl == Result::<Team, DbError>::Ok(team),
            records@.len() == k,
            forall|j: int| 0 <= j < k ==> spec_request_ok(tl, #[trigger] requests@[j]),
            forall|j: int|
                0 <= j < k ==> spec_record_matches(
                    requests@[j],
                    #[trigger] records@[j],
                    team,
                    team_id,
                    today,
                ),
    {
        let req = requests[k];
        let rule = match team.get_rule(req.sanction_info.associated_rule) {
            Some(rule) => rule,
            None => {
                proof {
                    lemma_first_bad_at(tl, requests@, k as int);
                }
                return Err(
                    ErrorResponse::from_db_error(
                        DbError::ForeignKeyViolation(
                            String::from_str("The key associated_rule doesn't refer to anything"),
                        ),
                    ),
                );
            },
        };
        let price = match req.sanction_info.get_price(rule) {
            Ok(p) => p,
            Err(mismatch) => {
                proof {
                    lemma_first_bad_at(tl, requests@, k as int);
                }
                return Err(ErrorResponse::from_sanction_info_error(mismatch));
            },
        };
        records.push(CreateSanction::from_request(req, team_id, price, today));
    }
    Ok(records)
}

} // verus!
