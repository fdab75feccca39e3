//! The local ledger: logged requests and budget reservations.
//!
//! A reservation holds room in a budget for a request that is under way. It is
//! pending until it is committed with what the request really used, or released.
//! Only pending reservations that have not expired count.

use crate::app_error::{AppError, AppErrorView};
use crate::decimal::{
    adds_exactly, amount_text, at_most, decimal_from_str, decimal_sum, lemma_normal_form,
    normal_form, normalize, parse_amount, print_amount, sum, Amount,
};
use crate::text::{concat, same_text, trim, trimmed};
use vstd::prelude::*;

verus! {

/// A provider that reservations can refer to.
#[derive(Clone, Debug, PartialEq, Eq)]
pub struct ProviderKey {
    pub id: String,
    pub app_type: String,
}

/// A logged request with what it used.
#[derive(Clone, Debug, PartialEq, Eq)]
pub struct RequestLogRow {
    pub request_id: String,
    pub provider_id: String,
    pub app_type: String,
    /// The fingerprint of the key that was used, where it is known.
    pub credential_fingerprint: Option<String>,
    /// Where the record comes from; `proxy` for a request through the proxy.
    pub data_source: String,
    pub created_at: i64,
    /// The input tokens that no cache served.
    pub fresh_input_tokens: i64,
    pub output_tokens: i64,
    pub cache_creation_tokens: i64,
    pub cache_read_tokens: i64,
    /// The cost in US dollars, in decimal notation.
    pub total_cost_usd: String,
}

/// A reservation. It holds a fingerprint of the key, never the key.
#[derive(Debug, PartialEq, Eq)]
pub struct BudgetReservationRow {
    pub request_id: String,
    pub provider_id: String,
    pub app_type: String,
    pub credential_fingerprint: String,
    pub limit_type: String,
    pub reserved_tokens: i64,
    pub reserved_cost_usd: String,
    pub consumed_tokens: i64,
    pub consumed_cost_usd: String,
    /// `pending`, `committed` or `released`.
    pub status: String,
    pub created_at: i64,
    pub updated_at: i64,
    pub expires_at: i64,
}

/// A [`BudgetReservationRow`] with its texts as sequences of characters.
pub struct ReservationView {
    pub request_id: Seq<char>,
    pub provider_id: Seq<char>,
    pub app_type: Seq<char>,
    pub credential_fingerprint: Seq<char>,
    pub limit_type: Seq<char>,
    pub reserved_tokens: int,
    pub reserved_cost_usd: Seq<char>,
    pub consumed_tokens: int,
    pub consumed_cost_usd: Seq<char>,
    pub status: Seq<char>,
    pub created_at: int,
    pub updated_at: int,
    pub expires_at: int,
}

impl View for BudgetReservationRow {
    type V = ReservationView;

    open spec fn view(&self) -> ReservationView {
        ReservationView {
            request_id: self.request_id@,
            provider_id: self.provider_id@,
            app_type: self.app_type@,
            credential_fingerprint: self.credential_fingerprint@,
            limit_type: self.limit_type@,
            reserved_tokens: self.reserved_tokens as int,
            reserved_cost_usd: self.reserved_cost_usd@,
            consumed_tokens: self.consumed_tokens as int,
            consumed_cost_usd: self.consumed_cost_usd@,
            status: self.status@,
            created_at: self.created_at as int,
            updated_at: self.updated_at as int,
            expires_at: self.expires_at as int,
        }
    }
}

impl Clone for BudgetReservationRow {
    fn clone(&self) -> (r: BudgetReservationRow)
        ensures
            r@ == self@,
    {
        BudgetReservationRow {
            request_id: self.request_id.clone(),
            provider_id: self.provider_id.clone(),
            app_type: self.app_type.clone(),
            credential_fingerprint: self.credential_fingerprint.clone(),
            limit_type: self.limit_type.clone(),
            reserved_tokens: self.reserved_tokens,
            reserved_cost_usd: self.reserved_cost_usd.clone(),
            consumed_tokens: self.consumed_tokens,
            consumed_cost_usd: self.consumed_cost_usd.clone(),
            status: self.status.clone(),
            created_at: self.created_at,
            updated_at: self.updated_at,
            expires_at: self.expires_at,
        }
    }
}

/// The pending reservations of a key, added up.
#[derive(Clone, Debug, PartialEq, Eq)]
pub struct PendingBudgetTotals {
    pub tokens: i64,
    pub cost_usd: String,
}

/// What a budget belongs to: a key, by its fingerprint, of a provider in an
/// application.
pub struct Scope {
    pub provider_id: Seq<char>,
    pub app_type: Seq<char>,
    pub fingerprint: Seq<char>,
}

impl ReservationView {
    pub open spec fn scope(self) -> Scope {
        Scope {
            provider_id: self.provider_id,
            app_type: self.app_type,
            fingerprint: self.credential_fingerprint,
        }
    }

    pub open spec fn is_pending(self) -> bool {
        self.status == "pending"@
    }

    /// Whether the reservation holds room in the budget of `scope` at the time `now`.
    pub open spec fn is_active(self, scope: Scope, now: int) -> bool {
        self.scope() == scope && self.is_pending() && self.expires_at > now
    }

    /// Whether the reservation is pending although its time is over.
    pub open spec fn is_stale(self, now: int) -> bool {
        self.is_pending() && self.expires_at <= now
    }

    pub open spec fn released(self, now: int) -> ReservationView {
        ReservationView { status: "released"@, updated_at: now, ..self }
    }

    pub open spec fn committed(self, tokens: int, cost_usd: Seq<char>, now: int) -> ReservationView {
        ReservationView {
            consumed_tokens: tokens,
            consumed_cost_usd: cost_usd,
            status: "committed"@,
            updated_at: now,
            ..self
        }
    }
}

pub open spec fn scope_of(
    provider_id: Seq<char>,
    app_type: Seq<char>,
    fingerprint: Seq<char>,
) -> Scope {
    Scope { provider_id, app_type, fingerprint }
}

impl BudgetReservationRow {
    fn holds_room(&self, provider_id: &str, app_type: &str, fingerprint: &str, now: i64) -> (r:
        bool)
        ensures
            r == self@.is_active(scope_of(provider_id@, app_type@, fingerprint@), now as int),
    {
        same_text(self.provider_id.as_str(), provider_id) && same_text(
            self.app_type.as_str(),
            app_type,
        ) && same_text(self.credential_fingerprint.as_str(), fingerprint) && same_text(
            self.status.as_str(),
            "pending",
        ) && self.expires_at > now
    }
}

impl RequestLogRow {
    fn is_counted(&self, provider_id: &str, app_type: &str, fingerprint: &str, since: i64) -> (r:
        bool)
        ensures
            r == self.counts(scope_of(provider_id@, app_type@, fingerprint@), since as int),
    {
        match &self.credential_fingerprint {
            None => false,
            Some(f) => same_text(self.provider_id.as_str(), provider_id) && same_text(
                self.app_type.as_str(),
                app_type,
            ) && same_text(f.as_str(), fingerprint) && self.created_at >= since && same_text(
                self.data_source.as_str(),
                "proxy",
            ),
        }
    }

    /// Whether the request counts against the budget of `scope` since a time:
    /// only requests through the proxy do.
    pub open spec fn counts(self, scope: Scope, since: int) -> bool {
        &&& self.provider_id@ == scope.provider_id
        &&& self.app_type@ == scope.app_type
        &&& self.credential_fingerprint matches Some(f) && f@ == scope.fingerprint
        &&& self.created_at >= since
        &&& self.data_source@ == "proxy"@
    }

    /// The tokens of the request: fresh input, output, and both kinds of cache use.
    pub open spec fn tokens(self) -> int {
        self.fresh_input_tokens + self.output_tokens + self.cache_creation_tokens
            + self.cache_read_tokens
    }
}

/// An integer, kept within 64 bits.
pub open spec fn saturated(n: int) -> int {
    if n > i64::MAX {
        i64::MAX as int
    } else if n < i64::MIN {
        i64::MIN as int
    } else {
        n
    }
}

/// `a + b`, kept within 64 bits.
pub fn saturating_add(a: i64, b: i64) -> (r: i64)
    ensures
        r == saturated(a + b),
{
    let n: i128 = a as i128 + b as i128;
    if n > i64::MAX as i128 {
        i64::MAX
    } else if n < i64::MIN as i128 {
        i64::MIN
    } else {
        n as i64
    }
}

/// `a - b`, kept within 64 bits.
pub fn saturating_sub(a: i64, b: i64) -> (r: i64)
    ensures
        r == saturated(a - b),
{
    let n: i128 = a as i128 - b as i128;
    if n > i64::MAX as i128 {
        i64::MAX
    } else if n < i64::MIN as i128 {
        i64::MIN
    } else {
        n as i64
    }
}

/// The tokens of the logged requests that count; nothing where a sum on the way
/// leaves 64 bits.
pub open spec fn committed_tokens(logs: Seq<RequestLogRow>, scope: Scope, since: int) -> Option<int>
    decreases logs.len(),
{
    if logs.len() == 0 {
        Some(0)
    } else {
        match committed_tokens(logs.drop_last(), scope, since) {
            None => None,
            Some(total) => if !logs.last().counts(scope, since) {
                Some(total)
            } else if i64::MIN <= logs.last().tokens() <= i64::MAX && i64::MIN <= total
                + logs.last().tokens() <= i64::MAX {
                Some(total + logs.last().tokens())
            } else {
                None
            },
        }
    }
}

/// A sum of decimal texts.
pub enum CostTotal {
    Sum(Amount),
    /// A text is no decimal number; why.
    NotDecimal(Seq<char>),
    /// A sum left the range of an amount.
    OutOfRange,
}

impl CostTotal {
    /// The sum with one more text.
    pub open spec fn plus(self, cost: Seq<char>) -> CostTotal {
        match self {
            CostTotal::Sum(total) => match decimal_from_str(trimmed(cost)) {
                Ok(amount) => match decimal_sum(total, amount) {
                    Some(next) => CostTotal::Sum(next),
                    None => CostTotal::OutOfRange,
                },
                Err(why) => CostTotal::NotDecimal(why),
            },
            other => other,
        }
    }
}

pub open spec fn zero_amount() -> Amount {
    Amount { mantissa: 0, scale: 0 }
}

/// The costs of the logged requests that count.
pub open spec fn committed_cost(logs: Seq<RequestLogRow>, scope: Scope, since: int) -> CostTotal
    decreases logs.len(),
{
    if logs.len() == 0 {
        CostTotal::Sum(zero_amount())
    } else {
        let before = committed_cost(logs.drop_last(), scope, since);
        if logs.last().counts(scope, since) {
            before.plus(logs.last().total_cost_usd@)
        } else {
            before
        }
    }
}

/// The tokens of the active reservations, kept within 64 bits.
pub open spec fn pending_tokens(rows: Seq<ReservationView>, scope: Scope, now: int) -> int
    decreases rows.len(),
{
    if rows.len() == 0 {
        0
    } else {
        let before = pending_tokens(rows.drop_last(), scope, now);
        if rows.last().is_active(scope, now) {
            saturated(before + rows.last().reserved_tokens)
        } else {
            before
        }
    }
}

/// The costs of the active reservations.
pub open spec fn pending_cost(rows: Seq<ReservationView>, scope: Scope, now: int) -> CostTotal
    decreases rows.len(),
{
    if rows.len() == 0 {
        CostTotal::Sum(zero_amount())
    } else {
        let before = pending_cost(rows.drop_last(), scope, now);
        if rows.last().is_active(scope, now) {
            before.plus(rows.last().reserved_cost_usd)
        } else {
            before
        }
    }
}

/// The number of stale reservations.
pub open spec fn stale_count(rows: Seq<ReservationView>, now: int) -> nat
    decreases rows.len(),
{
    if rows.len() == 0 {
        0
    } else if rows.last().is_stale(now) {
        stale_count(rows.drop_last(), now) + 1
    } else {
        stale_count(rows.drop_last(), now)
    }
}

/// The reservations after one that is pending was released; any other stays.
pub open spec fn with_released(
    rows: Seq<ReservationView>,
    request_id: Seq<char>,
    now: int,
) -> Seq<ReservationView> {
    Seq::new(
        rows.len(),
        |i: int|
            if rows[i].request_id == request_id && rows[i].is_pending() {
                rows[i].released(now)
            } else {
                rows[i]
            },
    )
}

/// The reservations after one that is pending was committed; any other stays.
pub open spec fn with_committed(
    rows: Seq<ReservationView>,
    request_id: Seq<char>,
    tokens: int,
    cost_usd: Seq<char>,
    now: int,
) -> Seq<ReservationView> {
    Seq::new(
        rows.len(),
        |i: int|
            if rows[i].request_id == request_id && rows[i].is_pending() {
                rows[i].committed(tokens, cost_usd, now)
            } else {
                rows[i]
            },
    )
}

/// The reservations after the stale ones were released.
pub open spec fn without_stale(rows: Seq<ReservationView>, now: int) -> Seq<ReservationView> {
    Seq::new(
        rows.len(),
        |i: int|
            if rows[i].is_stale(now) {
                rows[i].released(now)
            } else {
                rows[i]
            },
    )
}

/// Whether a request has a reservation with a given status.
pub open spec fn has_status(
    rows: Seq<ReservationView>,
    request_id: Seq<char>,
    status: Seq<char>,
) -> bool {
    exists|i: int|
        0 <= i < rows.len() && (#[trigger] rows[i]).request_id == request_id && rows[i].status
            == status
}

/// The complaint about recording what a request used, if there is one: it takes a
/// reservation that is pending, or committed already.
pub open spec fn reconcile_complaint(
    rows: Seq<ReservationView>,
    request_id: Seq<char>,
) -> Option<AppErrorView> {
    if has_status(rows, request_id, "pending"@) || has_status(rows, request_id, "committed"@) {
        None
    } else {
        Some(AppErrorView::InvalidInput("预算 reservation 不存在或已结束: "@ + request_id))
    }
}

/// The active reservations of a key, added up: their tokens, and their costs in
/// canonical notation. Nothing comes back where the sum of costs leaves the range of
/// an amount.
pub open spec fn pending_report(rows: Seq<ReservationView>, scope: Scope, now: int) -> Option<
    Result<(int, Seq<char>), AppErrorView>,
> {
    match pending_cost(rows, scope, now) {
        CostTotal::Sum(cost) => Some(
            Ok((pending_tokens(rows, scope, now), amount_text(normal_form(cost)))),
        ),
        CostTotal::NotDecimal(why) => Some(
            Err(AppErrorView::Database("预算 reservation cost 不是十进制: "@ + why)),
        ),
        CostTotal::OutOfRange => None,
    }
}

/// Whether one more reservation has room.
pub enum Room {
    Fits,
    Full,
    /// It cannot be told, and why.
    Fails(AppErrorView),
    /// It cannot be told because a sum of costs leaves the range of an amount.
    OutOfRange,
}

/// Whether `row` has room beside the logged usage since `usage_start_at` and the
/// active reservations. Without a limit there is no room.
pub open spec fn room(
    logs: Seq<RequestLogRow>,
    rows: Seq<ReservationView>,
    row: ReservationView,
    usage_start_at: int,
    token_limit: Option<i64>,
    cost_limit_usd: Option<Amount>,
    now: int,
) -> Room {
    let scope = row.scope();
    match (committed_tokens(logs, scope, usage_start_at), pending_cost(rows, scope, now)) {
        (None, _) => Room::Fails(
            AppErrorView::Database("聚合 reservation token 用量失败: integer overflow"@),
        ),
        (Some(_), CostTotal::NotDecimal(why)) => Room::Fails(
            AppErrorView::Database("pending cost 不是十进制: "@ + why),
        ),
        (Some(_), CostTotal::OutOfRange) => Room::OutOfRange,
        (Some(tokens), CostTotal::Sum(pending)) => match (token_limit, cost_limit_usd) {
            (Some(limit), _) => if saturated(
                saturated(tokens + pending_tokens(rows, scope, now)) + row.reserved_tokens,
            ) <= limit {
                Room::Fits
            } else {
                Room::Full
            },
            (None, Some(limit)) => money_room(
                committed_cost(logs, scope, usage_start_at),
                pending,
                row.reserved_cost_usd,
                limit,
            ),
            (None, None) => Room::Full,
        },
    }
}

/// Whether a reserved cost has room under a limit beside committed and pending costs.
pub open spec fn money_room(
    committed: CostTotal,
    pending: Amount,
    reserved: Seq<char>,
    limit: Amount,
) -> Room {
    match committed {
        CostTotal::NotDecimal(why) => Room::Fails(
            AppErrorView::Database("proxy cost 不是十进制: "@ + why),
        ),
        CostTotal::OutOfRange => Room::OutOfRange,
        CostTotal::Sum(spent) => match decimal_sum(spent, pending) {
            None => Room::OutOfRange,
            Some(taken) => match decimal_from_str(trimmed(reserved)) {
                Err(why) => Room::Fails(
                    AppErrorView::Database("reservation cost 不是十进制: "@ + why),
                ),
                Ok(amount) => match decimal_sum(taken, amount) {
                    None => Room::OutOfRange,
                    Some(total) => if total.units() <= limit.units() {
                        Room::Fits
                    } else {
                        Room::Full
                    },
                },
            },
        },
    }
}

/// Whether spent, held and reserved costs lie within a limit together, as far as
/// they can be added without rounding.
pub open spec fn cost_stays_within(
    committed: CostTotal,
    pending: CostTotal,
    reserved: Seq<char>,
    limit: Amount,
) -> bool {
    match (committed, pending, decimal_from_str(trimmed(reserved))) {
        (CostTotal::Sum(spent), CostTotal::Sum(held), Ok(amount)) => {
            decimal_sum(spent, held) matches Some(taken) && (adds_exactly(spent, held)
                && adds_exactly(taken, amount) ==> spent.units() + held.units() + amount.units()
                <= limit.units())
        },
        _ => false,
    }
}

/// Whether spent, held and reserved costs can be added without rounding and lie
/// within a limit together.
pub open spec fn cost_fits_exactly(
    committed: CostTotal,
    pending: CostTotal,
    reserved: Seq<char>,
    limit: Amount,
) -> bool {
    match (committed, pending, decimal_from_str(trimmed(reserved))) {
        (CostTotal::Sum(spent), CostTotal::Sum(held), Ok(amount)) => {
            &&& adds_exactly(spent, held)
            &&& decimal_sum(spent, held) matches Some(taken) ==> adds_exactly(taken, amount)
            &&& spent.units() + held.units() + amount.units() <= limit.units()
        },
        _ => false,
    }
}

/// A sum of decimal texts, as far as it could be formed.
enum CostSum {
    Sum(Amount),
    NotDecimal(String),
    OutOfRange,
}

impl CostSum {
    spec fn total(self) -> CostTotal {
        match self {
            CostSum::Sum(a) => CostTotal::Sum(a),
            CostSum::NotDecimal(e) => CostTotal::NotDecimal(e@),
            CostSum::OutOfRange => CostTotal::OutOfRange,
        }
    }

    spec fn wf(self) -> bool {
        self matches CostSum::Sum(a) ==> a.wf()
    }

    fn plus(self, cost: &str) -> (r: CostSum)
        requires
            self.wf(),
        ensures
            r.wf(),
            r.total() == self.total().plus(cost@),
    {
        match self {
            CostSum::Sum(total) => match parse_amount(trim(cost)) {
                Ok(amount) => match sum(&total, &amount) {
                    Some(next) => CostSum::Sum(next),
                    None => CostSum::OutOfRange,
                },
                Err(e) => CostSum::NotDecimal(e),
            },
            other => other,
        }
    }
}

/// The local tables.
#[derive(Debug)]
pub struct Database {
    pub providers: Vec<ProviderKey>,
    pub request_logs: Vec<RequestLogRow>,
    pub reservations: Vec<BudgetReservationRow>,
}

impl Database {
    /// The reservations, in the order in which they were made.
    pub open spec fn rows(self) -> Seq<ReservationView> {
        Seq::new(self.reservations@.len(), |i: int| self.reservations@[i]@)
    }

    /// A request has at most one reservation.
    pub open spec fn wf(self) -> bool {
        forall|i: int, j: int|
            0 <= i < j < self.rows().len() ==> (#[trigger] self.rows()[i]).request_id != (
            #[trigger] self.rows()[j]).request_id
    }

    pub open spec fn has_request(self, request_id: Seq<char>) -> bool {
        exists|i: int|
            0 <= i < self.rows().len() && (#[trigger] self.rows()[i]).request_id == request_id
    }

    pub open spec fn has_provider(self, id: Seq<char>, app_type: Seq<char>) -> bool {
        exists|i: int|
            0 <= i < self.providers@.len() && (#[trigger] self.providers@[i]).id@ == id
                && self.providers@[i].app_type@ == app_type
    }

    /// Empty tables.
    pub fn memory() -> (r: Database)
        ensures
            r.wf(),
            r.rows() == Seq::<ReservationView>::empty(),
            r.request_logs@.len() == 0,
            r.providers@.len() == 0,
    {
        Database { providers: Vec::new(), request_logs: Vec::new(), reservations: Vec::new() }
    }

    fn find_request(&self, request_id: &str) -> (r: Option<usize>)
        ensures
            match r {
                Some(i) => i < self.rows().len() && self.rows()[i as int].request_id == request_id@,
                None => !self.has_request(request_id@),
            },
    {
        let mut i: usize = 0;
        while i < self.reservations.len()
            invariant
                i <= self.reservations@.len(),
                forall|j: int|
                    0 <= j < i ==> (#[trigger] self.rows()[j]).request_id != request_id@,
            decreases self.reservations@.len() - i,
        {
            assert(self.rows()[i as int] == self.reservations@[i as int]@);
            if same_text(self.reservations[i].request_id.as_str(), request_id) {
                return Some(i);
            }
            i = i + 1;
        }
        None
    }

    fn knows_provider(&self, id: &str, app_type: &str) -> (r: bool)
        ensures
            r == self.has_provider(id@, app_type@),
    {
        let mut i: usize = 0;
        while i < self.providers.len()
            invariant
                i <= self.providers@.len(),
                forall|j: int|
                    0 <= j < i ==> !((#[trigger] self.providers@[j]).id@ == id@
                        && self.providers@[j].app_type@ == app_type@),
            decreases self.providers@.len() - i,
        {
            if same_text(self.providers[i].id.as_str(), id) && same_text(
                self.providers[i].app_type.as_str(),
                app_type,
            ) {
                return true;
            }
            i = i + 1;
        }
        false
    }

    fn usage_tokens(&self, provider_id: &str, app_type: &str, fingerprint: &str, since: i64) -> (r:
        Option<i64>)
        ensures
            match r {
                Some(n) => committed_tokens(
                    self.request_logs@,
                    scope_of(provider_id@, app_type@, fingerprint@),
                    since as int,
                ) == Some(n as int),
                None => committed_tokens(
                    self.request_logs@,
                    scope_of(provider_id@, app_type@, fingerprint@),
                    since as int,
                ) is None,
            },
    {
        let ghost scope = scope_of(provider_id@, app_type@, fingerprint@);
        let ghost logs = self.request_logs@;
        let mut total: Option<i64> = Some(0);
        let mut i: usize = 0;
        while i < self.request_logs.len()
            invariant
                i <= logs.len(),
                logs == self.request_logs@,
                scope == scope_of(provider_id@, app_type@, fingerprint@),
                match total {
                    Some(n) => committed_tokens(logs.take(i as int), scope, since as int) == Some(
                        n as int,
                    ),
                    None => committed_tokens(logs.take(i as int), scope, since as int) is None,
                },
            decreases logs.len() - i,
        {
            let log: &RequestLogRow = &self.request_logs[i];
            assert(logs.take(i + 1).drop_last() =~= logs.take(i as int));
            if log.is_counted(provider_id, app_type, fingerprint, since) {
                let tokens: i128 = log.fresh_input_tokens as i128 + log.output_tokens as i128
                    + log.cache_creation_tokens as i128 + log.cache_read_tokens as i128;
                total = match total {
                    None => None,
                    Some(n) => {
                        let next: i128 = n as i128 + tokens;
                        if i64::MIN as i128 <= tokens && tokens <= i64::MAX as i128
                            && i64::MIN as i128 <= next && next <= i64::MAX as i128 {
                            Some(next as i64)
                        } else {
                            None
                        }
                    },
                };
            }
            i = i + 1;
        }
        assert(logs.take(logs.len() as int) =~= logs);
        total
    }

    fn usage_cost(&self, provider_id: &str, app_type: &str, fingerprint: &str, since: i64) -> (r:
        CostSum)
        ensures
            r.wf(),
            r.total() == committed_cost(
                self.request_logs@,
                scope_of(provider_id@, app_type@, fingerprint@),
                since as int,
            ),
    {
        let ghost scope = scope_of(provider_id@, app_type@, fingerprint@);
        let ghost logs = self.request_logs@;
        let mut total: CostSum = CostSum::Sum(Amount::whole(0));
        let mut i: usize = 0;
        while i < self.request_logs.len()
            invariant
                i <= logs.len(),
                logs == self.request_logs@,
                scope == scope_of(provider_id@, app_type@, fingerprint@),
                total.wf(),
                total.total() == committed_cost(logs.take(i as int), scope, since as int),
            decreases logs.len() - i,
        {
            let log: &RequestLogRow = &self.request_logs[i];
            assert(logs.take(i + 1).drop_last() =~= logs.take(i as int));
            if log.is_counted(provider_id, app_type, fingerprint, since) {
                total = total.plus(log.total_cost_usd.as_str());
            }
            i = i + 1;
        }
        assert(logs.take(logs.len() as int) =~= logs);
        total
    }

    fn pending_totals(&self, provider_id: &str, app_type: &str, fingerprint: &str, now: i64) -> (r:
        (i64, CostSum))
        ensures
            r.0 == pending_tokens(
                self.rows(),
                scope_of(provider_id@, app_type@, fingerprint@),
                now as int,
            ),
            r.1.wf(),
            r.1.total() == pending_cost(
                self.rows(),
                scope_of(provider_id@, app_type@, fingerprint@),
                now as int,
            ),
    {
        let ghost scope = scope_of(provider_id@, app_type@, fingerprint@);
        let ghost rows = self.rows();
        let mut tokens: i64 = 0;
        let mut cost: CostSum = CostSum::Sum(Amount::whole(0));
        let mut i: usize = 0;
        while i < self.reservations.len()
            invariant
                i <= rows.len(),
                rows == self.rows(),
                scope == scope_of(provider_id@, app_type@, fingerprint@),
                tokens == pending_tokens(rows.take(i as int), scope, now as int),
                cost.wf(),
                cost.total() == pending_cost(rows.take(i as int), scope, now as int),
            decreases rows.len() - i,
        {
            let row: &BudgetReservationRow = &self.reservations[i];
            assert(rows.take(i + 1).drop_last() =~= rows.take(i as int));
            assert(rows.take(i + 1).last() == row@);
            if row.holds_room(provider_id, app_type, fingerprint, now) {
                tokens = saturating_add(tokens, row.reserved_tokens);
                cost = cost.plus(row.reserved_cost_usd.as_str());
            }
            i = i + 1;
        }
        assert(rows.take(rows.len() as int) =~= rows);
        (tokens, cost)
    }

    /// Why a row cannot be stored, if it cannot: its request has a reservation
    /// already, or its provider is unknown.
    pub open spec fn conflict(self, row: ReservationView) -> Option<AppErrorView> {
        if self.has_request(row.request_id) {
            Some(
                AppErrorView::Database(
                    "插入预算 reservation 失败: UNIQUE constraint failed: budget_reservations.request_id"@,
                ),
            )
        } else if !self.has_provider(row.provider_id, row.app_type) {
            Some(
                AppErrorView::Database(
                    "插入预算 reservation 失败: FOREIGN KEY constraint failed"@,
                ),
            )
        } else {
            None
        }
    }

    /// Stores a reservation.
    pub fn insert_pending_budget_reservation(&mut self, row: &BudgetReservationRow) -> (r: Result<
        (),
        AppError,
    >)
        ensures
            old(self).wf() ==> final(self).wf(),
            final(self).request_logs == old(self).request_logs,
            final(self).providers == old(self).providers,
            match old(self).conflict(row@) {
                None => r is Ok && final(self).rows() == old(self).rows().push(row@),
                Some(e) => (r matches Err(found) && found@ == e) && final(self).rows() == old(self).rows(),
            },
    {
        if self.find_request(row.request_id.as_str()).is_some() {
            return Err(
                AppError::Database(
                    "插入预算 reservation 失败: UNIQUE constraint failed: budget_reservations.request_id".to_owned(),
                ),
            );
        }
        if !self.knows_provider(row.provider_id.as_str(), row.app_type.as_str()) {
            return Err(
                AppError::Database(
                    "插入预算 reservation 失败: FOREIGN KEY constraint failed".to_owned(),
                ),
            );
        }
        self.reservations.push(row.clone());
        proof {
            assert(self.rows() =~= old(self).rows().push(row@));
            if old(self).wf() {
                assert forall|i: int, j: int| 0 <= i < j < self.rows().len() implies (
                #[trigger] self.rows()[i]).request_id != (#[trigger] self.rows()[j]).request_id by {
                    assert(self.rows()[i] == old(self).rows()[i]);
                    if j < old(self).rows().len() {
                        assert(self.rows()[j] == old(self).rows()[j]);
                    }
                }
            }
        }
        Ok(())
    }

    /// Stores a reservation if it has room beside the logged usage and the active
    /// reservations of its key, and says whether it did. Nothing comes back where a
    /// sum of costs leaves the range of an amount.
    pub fn try_insert_pending_budget_reservation(
        &mut self,
        row: &BudgetReservationRow,
        usage_start_at: i64,
        token_limit: Option<i64>,
        cost_limit_usd: Option<&Amount>,
        now: i64,
    ) -> (r: Option<Result<bool, AppError>>)
        requires
            cost_limit_usd matches Some(limit) ==> limit.wf(),
        ensures
            old(self).wf() ==> final(self).wf(),
            final(self).request_logs == old(self).request_logs,
            final(self).providers == old(self).providers,
            r matches Some(Ok(true)) ==> final(self).rows() == old(self).rows().push(row@),
            !(r matches Some(Ok(true))) ==> final(self).rows() == old(self).rows(),
            r matches Some(Ok(true)) && token_limit is None ==> (cost_limit_usd matches Some(limit)
                && cost_stays_within(
                committed_cost(old(self).request_logs@, row@.scope(), usage_start_at as int),
                pending_cost(old(self).rows(), row@.scope(), now as int),
                row.reserved_cost_usd@,
                *limit,
            )),
            token_limit is None && (cost_limit_usd matches Some(limit) && cost_fits_exactly(
                committed_cost(old(self).request_logs@, row@.scope(), usage_start_at as int),
                pending_cost(old(self).rows(), row@.scope(), now as int),
                row.reserved_cost_usd@,
                *limit,
            )) && committed_tokens(
                old(self).request_logs@,
                row@.scope(),
                usage_start_at as int,
            ) is Some && old(self).conflict(row@) is None ==> (r matches Some(Ok(inserted))
                && inserted),
            match old(self).room_for(
                row@,
                usage_start_at as int,
                token_limit,
                cost_limit_usd,
                now as int,
            ) {
                Room::OutOfRange => r is None,
                Room::Fails(e) => r matches Some(Err(found)) && found@ == e,
                Room::Full => r matches Some(Ok(inserted)) && !inserted,
                Room::Fits => match old(self).conflict(row@) {
                    None => r matches Some(Ok(inserted)) && inserted,
                    Some(e) => r matches Some(Err(found)) && found@ == e,
                },
            },
    {
        let committed: i64 = match self.usage_tokens(
            row.provider_id.as_str(),
            row.app_type.as_str(),
            row.credential_fingerprint.as_str(),
            usage_start_at,
        ) {
            Some(n) => n,
            None => {
                return Some(
                    Err(
                        AppError::Database(
                            "聚合 reservation token 用量失败: integer overflow".to_owned(),
                        ),
                    ),
                );
            },
        };
        let (pending, pending_cost_usd) = self.pending_totals(
            row.provider_id.as_str(),
            row.app_type.as_str(),
            row.credential_fingerprint.as_str(),
            now,
        );
        let pending_usd: Amount = match pending_cost_usd {
            CostSum::Sum(a) => a,
            CostSum::NotDecimal(e) => {
                return Some(
                    Err(AppError::Database(concat("pending cost 不是十进制: ", e.as_str()))),
                );
            },
            CostSum::OutOfRange => {
                return None;
            },
        };
        let fits: bool = match token_limit {
            Some(limit) => saturating_add(saturating_add(committed, pending), row.reserved_tokens)
                <= limit,
            None => match cost_limit_usd {
                None => false,
                Some(limit) => {
                    let spent: Amount = match self.usage_cost(
                        row.provider_id.as_str(),
                        row.app_type.as_str(),
                        row.credential_fingerprint.as_str(),
                        usage_start_at,
                    ) {
                        CostSum::Sum(a) => a,
                        CostSum::NotDecimal(e) => {
                            return Some(
                                Err(
                                    AppError::Database(
                                        concat("proxy cost 不是十进制: ", e.as_str()),
                                    ),
                                ),
                            );
                        },
                        CostSum::OutOfRange => {
                            return None;
                        },
                    };
                    let taken: Amount = match sum(&spent, &pending_usd) {
                        Some(a) => a,
                        None => {
                            return None;
                        },
                    };
                    let reserved: Amount = match parse_amount(trim(row.reserved_cost_usd.as_str())) {
                        Ok(a) => a,
                        Err(e) => {
                            return Some(
                                Err(
                                    AppError::Database(
                                        concat("reservation cost 不是十进制: ", e.as_str()),
                                    ),
                                ),
                            );
                        },
                    };
                    match sum(&taken, &reserved) {
                        Some(total) => at_most(&total, limit),
                        None => {
                            return None;
                        },
                    }
                },
            },
        };
        if !fits {
            return Some(Ok(false));
        }
        match self.insert_pending_budget_reservation(row) {
            Ok(_) => Some(Ok(true)),
            Err(e) => Some(Err(e)),
        }
    }

    /// [`room`] in these tables.
    pub open spec fn room_for(
        self,
        row: ReservationView,
        usage_start_at: int,
        token_limit: Option<i64>,
        cost_limit_usd: Option<&Amount>,
        now: int,
    ) -> Room {
        room(
            self.request_logs@,
            self.rows(),
            row,
            usage_start_at,
            token_limit,
            match cost_limit_usd {
                Some(limit) => Some(*limit),
                None => None,
            },
            now,
        )
    }

    /// The active reservations of a key, added up. Nothing comes back where the sum
    /// of costs leaves the range of an amount.
    pub fn sum_pending_budget_reservations(
        &self,
        provider_id: &str,
        app_type: &str,
        fingerprint: &str,
        now: i64,
    ) -> (r: Option<Result<PendingBudgetTotals, AppError>>)
        ensures
            match pending_cost(
                self.rows(),
                scope_of(provider_id@, app_type@, fingerprint@),
                now as int,
            ) {
                CostTotal::Sum(cost) => r matches Some(Ok(totals)) && totals.tokens
                    == pending_tokens(
                    self.rows(),
                    scope_of(provider_id@, app_type@, fingerprint@),
                    now as int,
                ) && totals.cost_usd@ == amount_text(normal_form(cost)),
                CostTotal::NotDecimal(why) => r matches Some(Err(e)) && e@
                    == AppErrorView::Database("预算 reservation cost 不是十进制: "@ + why),
                CostTotal::OutOfRange => r is None,
            },
            match pending_report(
                self.rows(),
                scope_of(provider_id@, app_type@, fingerprint@),
                now as int,
            ) {
                Some(Ok((tokens, cost_usd))) => r matches Some(Ok(totals)) && totals.tokens
                    == tokens && totals.cost_usd@ == cost_usd,
                Some(Err(complaint)) => r matches Some(Err(e)) && e@ == complaint,
                None => r is None,
            },
            r matches Some(Ok(totals)) ==> (pending_cost(
                self.rows(),
                scope_of(provider_id@, app_type@, fingerprint@),
                now as int,
            ) matches CostTotal::Sum(cost) && (decimal_from_str(totals.cost_usd@) matches Ok(read)
                && read.units() == cost.units())),
    {
        let (tokens, cost) = self.pending_totals(provider_id, app_type, fingerprint, now);
        match cost {
            CostSum::Sum(total) => {
                proof {
                    lemma_normal_form(total);
                }
                Some(Ok(PendingBudgetTotals { tokens, cost_usd: print_amount(&normalize(&total)) }))
            },
            CostSum::NotDecimal(e) => Some(
                Err(AppError::Database(concat("预算 reservation cost 不是十进制: ", e.as_str()))),
            ),
            CostSum::OutOfRange => None,
        }
    }

    /// Records what a request really used and closes its reservation. A reservation
    /// that is committed already stays as it is.
    pub fn reconcile_budget_reservation_row(
        &mut self,
        request_id: &str,
        consumed_tokens: i64,
        consumed_cost_usd: &str,
        now: i64,
    ) -> (r: Result<(), AppError>)
        ensures
            old(self).wf() ==> final(self).wf(),
            final(self).request_logs == old(self).request_logs,
            final(self).providers == old(self).providers,
            final(self).rows() == with_committed(
                old(self).rows(),
                request_id@,
                consumed_tokens as int,
                consumed_cost_usd@,
                now as int,
            ),
            match r {
                Ok(_) => has_status(old(self).rows(), request_id@, "pending"@) || has_status(
                    old(self).rows(),
                    request_id@,
                    "committed"@,
                ),
                Err(e) => !has_status(old(self).rows(), request_id@, "pending"@) && !has_status(
                    old(self).rows(),
                    request_id@,
                    "committed"@,
                ) && e@ == AppErrorView::InvalidInput(
                    "预算 reservation 不存在或已结束: "@ + request_id@,
                ),
            },
            match reconcile_complaint(old(self).rows(), request_id@) {
                None => r is Ok,
                Some(complaint) => r matches Err(e) && e@ == complaint,
            },
    {
        let ghost rows = self.rows();
        let ghost goal = with_committed(
            rows,
            request_id@,
            consumed_tokens as int,
            consumed_cost_usd@,
            now as int,
        );
        let mut closed: bool = false;
        let mut i: usize = 0;
        while i < self.reservations.len()
            invariant
                rows == old(self).rows(),
                goal == with_committed(
                    rows,
                    request_id@,
                    consumed_tokens as int,
                    consumed_cost_usd@,
                    now as int,
                ),
                self.reservations@.len() == rows.len(),
                i <= rows.len(),
                self.request_logs == old(self).request_logs,
                self.providers == old(self).providers,
                forall|j: int| 0 <= j < i ==> self.reservations@[j]@ == #[trigger] goal[j],
                forall|j: int|
                    i <= j < rows.len() ==> self.reservations@[j]@ == #[trigger] rows[j],
                closed ==> has_status(rows, request_id@, "pending"@) || has_status(
                    rows,
                    request_id@,
                    "committed"@,
                ),
                !closed ==> forall|j: int|
                    0 <= j < i ==> !((#[trigger] rows[j]).request_id == request_id@ && (
                    rows[j].status == "pending"@ || rows[j].status == "committed"@)),
            decreases rows.len() - i,
        {
            assert(self.reservations@[i as int]@ == rows[i as int]);
            assert(goal[i as int] == if rows[i as int].request_id == request_id@
                && rows[i as int].is_pending() {
                rows[i as int].committed(consumed_tokens as int, consumed_cost_usd@, now as int)
            } else {
                rows[i as int]
            });
            if same_text(self.reservations[i].request_id.as_str(), request_id) {
                if same_text(self.reservations[i].status.as_str(), "pending") {
                    let mut row: BudgetReservationRow = self.reservations[i].clone();
                    row.consumed_tokens = consumed_tokens;
                    row.consumed_cost_usd = consumed_cost_usd.to_owned();
                    row.status = "committed".to_owned();
                    row.updated_at = now;
                    self.reservations.set(i, row);
                    closed = true;
                } else if same_text(self.reservations[i].status.as_str(), "committed") {
                    closed = true;
                }
            }
            i = i + 1;
        }
        proof {
            assert(self.rows() =~= goal);
            lemma_same_requests(rows, goal);
        }
        if closed {
            Ok(())
        } else {
            Err(AppError::InvalidInput(concat("预算 reservation 不存在或已结束: ", request_id)))
        }
    }

    /// Gives up the reservation of a request. One that is closed already, or that
    /// does not exist, changes nothing.
    pub fn release_budget_reservation_row(&mut self, request_id: &str, now: i64) -> (r: Result<
        (),
        AppError,
    >)
        ensures
            old(self).wf() ==> final(self).wf(),
            final(self).request_logs == old(self).request_logs,
            final(self).providers == old(self).providers,
            r is Ok,
            final(self).rows() == with_released(old(self).rows(), request_id@, now as int),
    {
        let ghost rows = self.rows();
        let ghost goal = with_released(rows, request_id@, now as int);
        let mut i: usize = 0;
        while i < self.reservations.len()
            invariant
                rows == old(self).rows(),
                goal == with_released(rows, request_id@, now as int),
                self.reservations@.len() == rows.len(),
                i <= rows.len(),
                self.request_logs == old(self).request_logs,
                self.providers == old(self).providers,
                forall|j: int| 0 <= j < i ==> self.reservations@[j]@ == #[trigger] goal[j],
                forall|j: int|
                    i <= j < rows.len() ==> self.reservations@[j]@ == #[trigger] rows[j],
            decreases rows.len() - i,
        {
            assert(self.reservations@[i as int]@ == rows[i as int]);
            if same_text(self.reservations[i].request_id.as_str(), request_id) && same_text(
                self.reservations[i].status.as_str(),
                "pending",
            ) {
                self.close_released(i, now);
            }
            i = i + 1;
        }
        proof {
            assert(self.rows() =~= goal);
            lemma_same_requests(rows, goal);
        }
        Ok(())
    }

    fn close_released(&mut self, i: usize, now: i64)
        requires
            i < old(self).reservations@.len(),
        ensures
            final(self).request_logs == old(self).request_logs,
            final(self).providers == old(self).providers,
            final(self).reservations@.len() == old(self).reservations@.len(),
            final(self).reservations@[i as int]@ == old(self).reservations@[i as int]@.released(
                now as int,
            ),
            forall|j: int|
                0 <= j < old(self).reservations@.len() && j != i ==> (
                #[trigger] final(self).reservations@[j]) == old(self).reservations@[j],
    {
        let mut row: BudgetReservationRow = self.reservations[i].clone();
        row.status = "released".to_owned();
        row.updated_at = now;
        self.reservations.set(i, row);
    }

    /// Releases the reservations that are still pending after their time, and says
    /// how many there were. Logged usage stays as it is.
    pub fn cleanup_stale_budget_reservations(&mut self, now: i64) -> (r: Result<usize, AppError>)
        ensures
            old(self).wf() ==> final(self).wf(),
            final(self).request_logs == old(self).request_logs,
            final(self).providers == old(self).providers,
            r matches Ok(n) && n == stale_count(old(self).rows(), now as int),
            final(self).rows() == without_stale(old(self).rows(), now as int),
    {
        let ghost rows = self.rows();
        let ghost goal = without_stale(rows, now as int);
        let mut count: usize = 0;
        let mut i: usize = 0;
        while i < self.reservations.len()
            invariant
                rows == old(self).rows(),
                goal == without_stale(rows, now as int),
                self.reservations@.len() == rows.len(),
                i <= rows.len(),
                self.request_logs == old(self).request_logs,
                self.providers == old(self).providers,
                forall|j: int| 0 <= j < i ==> self.reservations@[j]@ == #[trigger] goal[j],
                forall|j: int|
                    i <= j < rows.len() ==> self.reservations@[j]@ == #[trigger] rows[j],
                count <= i,
                count == stale_count(rows.take(i as int), now as int),
            decreases rows.len() - i,
        {
            assert(self.reservations@[i as int]@ == rows[i as int]);
            assert(rows.take(i + 1).drop_last() =~= rows.take(i as int));
            assert(rows.take(i + 1).last() == rows[i as int]);
            if same_text(self.reservations[i].status.as_str(), "pending")
                && self.reservations[i].expires_at <= now {
                self.close_released(i, now);
                count = count + 1;
            }
            i = i + 1;
        }
        proof {
            assert(self.rows() =~= goal);
            lemma_same_requests(rows, goal);
            assert(rows.take(rows.len() as int) =~= rows);
        }
        Ok(count)
    }

    /// Releases the reservation of a request at the time `now`.
    pub fn release_budget_reservation(&mut self, request_id: &str, now: i64) -> (r: Result<
        (),
        AppError,
    >)
        ensures
            old(self).wf() ==> final(self).wf(),
            final(self).request_logs == old(self).request_logs,
            final(self).providers == old(self).providers,
            r is Ok,
            final(self).rows() == with_released(old(self).rows(), request_id@, now as int),
    {
        self.release_budget_reservation_row(request_id, now)
    }

    /// Commits the reservation of a request at the time `now`.
    pub fn reconcile_budget_reservation(
        &mut self,
        request_id: &str,
        consumed_tokens: i64,
        consumed_cost_usd: &str,
        now: i64,
    ) -> (r: Result<(), AppError>)
        ensures
            old(self).wf() ==> final(self).wf(),
            final(self).request_logs == old(self).request_logs,
            final(self).providers == old(self).providers,
            final(self).rows() == with_committed(
                old(self).rows(),
                request_id@,
                consumed_tokens as int,
                consumed_cost_usd@,
                now as int,
            ),
            match r {
                Ok(_) => has_status(old(self).rows(), request_id@, "pending"@) || has_status(
                    old(self).rows(),
                    request_id@,
                    "committed"@,
                ),
                Err(e) => !has_status(old(self).rows(), request_id@, "pending"@) && !has_status(
                    old(self).rows(),
                    request_id@,
                    "committed"@,
                ) && e@ == AppErrorView::InvalidInput(
                    "预算 reservation 不存在或已结束: "@ + request_id@,
                ),
            },
            match reconcile_complaint(old(self).rows(), request_id@) {
                None => r is Ok,
                Some(complaint) => r matches Err(e) && e@ == complaint,
            },
    {
        self.reconcile_budget_reservation_row(request_id, consumed_tokens, consumed_cost_usd, now)
    }

    /// Makes a provider known. One that is known already stays known.
    pub fn save_provider(&mut self, app_type: &str, id: &str)
        ensures
            final(self).reservations == old(self).reservations,
            final(self).request_logs == old(self).request_logs,
            forall|i: Seq<char>, a: Seq<char>| #[trigger]
                final(self).has_provider(i, a) == (old(self).has_provider(i, a) || (i == id@ && a
                    == app_type@)),
    {
        let ghost before = self.providers@;
        self.providers.push(ProviderKey { id: id.to_owned(), app_type: app_type.to_owned() });
        proof {
            let after = self.providers@;
            assert forall|i: Seq<char>, a: Seq<char>| #[trigger]
                self.has_provider(i, a) == (old(self).has_provider(i, a) || (i == id@ && a
                    == app_type@)) by {
                if old(self).has_provider(i, a) {
                    let k = choose|k: int|
                        0 <= k < before.len() && (#[trigger] before[k]).id@ == i
                            && before[k].app_type@ == a;
                    assert(after[k] == before[k]);
                }
                assert(after[before.len() as int].id@ == id@);
                if self.has_provider(i, a) {
                    let k = choose|k: int|
                        0 <= k < after.len() && (#[trigger] after[k]).id@ == i && after[k].app_type@
                            == a;
                    if k < before.len() {
                        assert(after[k] == before[k]);
                    }
                }
            }
        }
    }
}

/// Changes that keep the request of each row keep requests distinct.
proof fn lemma_same_requests(before: Seq<ReservationView>, after: Seq<ReservationView>)
    requires
        before.len() == after.len(),
        forall|i: int|
            0 <= i < before.len() ==> (#[trigger] after[i]).request_id == before[i].request_id,
    ensures
        (forall|i: int, j: int|
            0 <= i < j < before.len() ==> (#[trigger] before[i]).request_id != (
            #[trigger] before[j]).request_id) ==> (forall|i: int, j: int|
            0 <= i < j < after.len() ==> (#[trigger] after[i]).request_id != (
            #[trigger] after[j]).request_id),
{
}

} // verus!
