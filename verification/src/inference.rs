//! Inference routing and pricing: the checks a routing or pricing query
//! passes, which strategy it names, and what a request costs.
use vstd::prelude::*;
use crate::api_error::{ApiError, ApiErrorView};
use crate::bounty::api_result;
use crate::text::{concat, push_all, str_eq, str_lowercase, to_lowercase};

verus! {

broadcast use vstd::string::group_string_axioms;

/// The largest number of tokens a completion asks for when the request
/// gives none.
pub fn default_max_tokens() -> (n: u32)
    ensures
        n == 256,
{
    256
}

/// The routing strategy used when the query names none.
pub fn default_strategy() -> (s: String)
    ensures
        s@ == "cheapest"@,
{
    "cheapest".to_string()
}

/// The token counts a pricing query uses when it gives none.
pub fn default_input() -> (n: u32)
    ensures
        n == 0,
{
    0
}

pub fn default_output() -> (n: u32)
    ensures
        n == 0,
{
    0
}

pub struct ProvidersQuery {
    pub model: Option<String>,
}

pub struct RouteQuery {
    pub model: String,
    pub strategy: String,
}

pub struct PricingQuery {
    pub model: String,
    pub input_tokens: u32,
    pub output_tokens: u32,
}

pub struct PricingEstimate {
    pub input_price_per_mtok: u64,
    pub output_price_per_mtok: u64,
    pub estimated_cost: u64,
}

pub struct ModelEntry {
    pub id: String,
    pub input_price_per_million: u64,
    pub output_price_per_million: u64,
    pub context_length: u32,
}

pub struct ModelsResponse {
    pub models: Vec<ModelEntry>,
}

pub struct RouteResponse {
    pub model: String,
    pub strategy: String,
    pub selected_provider: Option<String>,
    pub provider_name: Option<String>,
    pub status: String,
}

pub struct PricingResponse {
    pub model: String,
    pub input_tokens: u32,
    pub output_tokens: u32,
    pub input_cost: u64,
    pub output_cost: u64,
    pub total_cost: u64,
    pub protocol_fee: u64,
    pub net_payout: u64,
}

/// How a request is routed among providers.
#[derive(Clone, Copy, PartialEq, Eq, Structural, Debug)]
pub enum RoutingStrategy {
    Cheapest,
    Fastest,
    HighestReputation,
    Random,
    RoundRobin,
}

/// The strategy a lower-case name gives, if any.
pub open spec fn strategy_named(l: Seq<char>) -> Option<RoutingStrategy> {
    if l == "cheapest"@ {
        Some(RoutingStrategy::Cheapest)
    } else if l == "fastest"@ {
        Some(RoutingStrategy::Fastest)
    } else if l == "reputation"@ || l == "highest_reputation"@ {
        Some(RoutingStrategy::HighestReputation)
    } else if l == "random"@ {
        Some(RoutingStrategy::Random)
    } else if l == "round_robin"@ {
        Some(RoutingStrategy::RoundRobin)
    } else {
        None
    }
}

/// What a routing query's checks give: the model must be named, and the
/// strategy, read in any case, must be one of the five.
pub open spec fn route_check(model: Seq<char>, strategy: Seq<char>) -> Result<RoutingStrategy, ApiErrorView> {
    if model.len() == 0 {
        Err(ApiErrorView::BadRequest("model cannot be empty"@))
    } else {
        match strategy_named(str_lowercase(strategy)) {
            Some(s) => Ok(s),
            None => Err(ApiErrorView::BadRequest(
                "invalid strategy '"@ + strategy + "'. Must be: cheapest, fastest, reputation, random, round_robin"@,
            )),
        }
    }
}

pub fn check_route(q: &RouteQuery) -> (r: Result<RoutingStrategy, ApiError>)
    ensures
        api_result(r) == route_check(q.model@, q.strategy@),
{
    if q.model.as_str().is_empty() {
        return Err(ApiError::BadRequest("model cannot be empty".to_string()));
    }
    let l = to_lowercase(q.strategy.as_str());
    let t = l.as_str();
    if str_eq(t, "cheapest") {
        Ok(RoutingStrategy::Cheapest)
    } else if str_eq(t, "fastest") {
        Ok(RoutingStrategy::Fastest)
    } else if str_eq(t, "reputation") || str_eq(t, "highest_reputation") {
        Ok(RoutingStrategy::HighestReputation)
    } else if str_eq(t, "random") {
        Ok(RoutingStrategy::Random)
    } else if str_eq(t, "round_robin") {
        Ok(RoutingStrategy::RoundRobin)
    } else {
        let mut m = concat("invalid strategy '", q.strategy.as_str());
        push_all(&mut m, "'. Must be: cheapest, fastest, reputation, random, round_robin");
        Err(ApiError::BadRequest(m))
    }
}

/// The answer to a routing query when no provider is registered.
pub fn no_providers(q: &RouteQuery) -> (r: RouteResponse)
    ensures
        r.model@ == q.model@,
        r.strategy@ == q.strategy@,
        r.selected_provider is None,
        r.provider_name is None,
        r.status@ == "no_providers"@,
{
    RouteResponse {
        model: q.model.clone(),
        strategy: q.strategy.clone(),
        selected_provider: None,
        provider_name: None,
        status: "no_providers".to_string(),
    }
}

/// The cost of `tokens` at `price` per million tokens, rounded down and cut
/// to 64 bits.
pub open spec fn token_cost(tokens: u32, price: u128) -> u64 {
    ((tokens * price / 1_000_000) as u128) as u64
}

/// `a + b`, or `u64::MAX` when the sum does not fit.
pub open spec fn sat_sum(a: u64, b: u64) -> u64 {
    if a + b > u64::MAX { u64::MAX } else { (a + b) as u64 }
}

/// The total a pricing query is charged: the two costs together, and at
/// least 1 when any token is asked for.
pub open spec fn total_cost_of(q: PricingQuery, input_price: u128, output_price: u128) -> u64 {
    let t = sat_sum(token_cost(q.input_tokens, input_price), token_cost(q.output_tokens, output_price));
    if t == 0 && (q.input_tokens > 0 || q.output_tokens > 0) { 1 } else { t }
}

/// The protocol's fee: two percent of the total, rounded up.
pub open spec fn fee_of(total: u64) -> u64 {
    ((total + 49) / 50) as u64
}

/// Prices a query at the model's prices (100 and 200 per million tokens for
/// a model no provider serves). The query must name the model and ask for
/// some tokens.
pub fn price(q: &PricingQuery, prices: Option<(u128, u128)>) -> (r: Result<PricingResponse, ApiError>)
    requires
        prices is Some ==> q.input_tokens * prices->Some_0.0 <= u128::MAX && q.output_tokens * prices->Some_0.1 <= u128::MAX,
    ensures
        q.model@.len() == 0 ==> r is Err && r->Err_0@ == ApiErrorView::BadRequest("model cannot be empty"@),
        q.model@.len() > 0 && q.input_tokens == 0 && q.output_tokens == 0 ==> r is Err && r->Err_0@
            == ApiErrorView::BadRequest("at least one of input_tokens or output_tokens must be > 0"@),
        q.model@.len() > 0 && (q.input_tokens > 0 || q.output_tokens > 0) ==> r is Ok && {
            let (ip, op) = match prices { Some(p) => p, None => (100u128, 200u128) };
            let p = r->Ok_0;
            let total = total_cost_of(*q, ip, op);
            &&& p.model@ == q.model@
            &&& p.input_tokens == q.input_tokens
            &&& p.output_tokens == q.output_tokens
            &&& p.input_cost == token_cost(q.input_tokens, ip)
            &&& p.output_cost == token_cost(q.output_tokens, op)
            &&& p.total_cost == total
            &&& p.protocol_fee == fee_of(total)
            &&& p.net_payout == (if total >= fee_of(total) { (total - fee_of(total)) as u64 } else { 0 })
        },
{
    if q.model.as_str().is_empty() {
        return Err(ApiError::BadRequest("model cannot be empty".to_string()));
    }
    if q.input_tokens == 0 && q.output_tokens == 0 {
        return Err(ApiError::BadRequest("at least one of input_tokens or output_tokens must be > 0".to_string()));
    }
    let (ip, op): (u128, u128) = match prices {
        Some(p) => p,
        None => (100, 200),
    };
    assert(q.input_tokens * ip <= u128::MAX) by (nonlinear_arith)
        requires
            prices is Some ==> q.input_tokens * prices->Some_0.0 <= u128::MAX,
            prices is Some ==> ip == prices->Some_0.0,
            prices is None ==> ip == 100,
            q.input_tokens <= u32::MAX,
    ;
    assert(q.output_tokens * op <= u128::MAX) by (nonlinear_arith)
        requires
            prices is Some ==> q.output_tokens * prices->Some_0.1 <= u128::MAX,
            prices is Some ==> op == prices->Some_0.1,
            prices is None ==> op == 200,
            q.output_tokens <= u32::MAX,
    ;
    let input_cost: u64 = ((q.input_tokens as u128) * ip / 1_000_000) as u64;
    let output_cost: u64 = ((q.output_tokens as u128) * op / 1_000_000) as u64;
    let total = input_cost.saturating_add(output_cost);
    let total_cost: u64 = if total == 0 && (q.input_tokens > 0 || q.output_tokens > 0) { 1 } else { total };
    let fee: u64 = (((total_cost as u128) + 49) / 50) as u64;
    let net = total_cost.saturating_sub(fee);
    Ok(PricingResponse {
        model: q.model.clone(),
        input_tokens: q.input_tokens,
        output_tokens: q.output_tokens,
        input_cost,
        output_cost,
        total_cost,
        protocol_fee: fee,
        net_payout: net,
    })
}

/// The fee never exceeds the total, so a provider's payout plus the fee is
/// exactly what the requester pays.
pub proof fn law_fee_and_payout_add_up(total: u64)
    ensures
        fee_of(total) <= total,
        (total - fee_of(total)) + fee_of(total) == total,
{
}

} // verus!
