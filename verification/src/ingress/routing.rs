//! Configured default and named route selection.

use vstd::prelude::*;

use crate::common::config::{Catalog, Route, Target};
use crate::common::contracts::RoutePlan;
use crate::common::text;
use crate::common::text::{same_text, trim};
use crate::ingress::error::IngressError;

verus! {

/// Catalog route and flat target plan selected for one request.
#[derive(Debug)]
pub struct ResolvedRoute {
    /// Configured route identifier.
    pub route_id: String,
    /// Primary target identifier from the catalog.
    pub target_id: String,
    /// Inclusive output-token cap of the selected primary target.
    pub max_output_tokens: u32,
    /// Flat execution plan for the executor boundary.
    pub plan: RoutePlan,
}

/// The text of an optional string slice.
pub open spec fn optional_text(value: Option<&str>) -> Option<Seq<char>> {
    match value {
        Some(value) => Some(value@),
        None => None,
    }
}

/// Whether a client may name this route: it is configured under exactly this
/// name, which is neither empty nor padded.
pub open spec fn configured_route(catalog: Catalog, name: Seq<char>) -> bool {
    name.len() > 0 && text::trimmed(name) == name && catalog.routes@.contains_key(name)
}

/// The route that a request selects.
pub open spec fn selected_route(catalog: Catalog, requested: Option<Seq<char>>) -> Seq<char> {
    match requested {
        Some(name) => name,
        None => catalog.default_route@,
    }
}

/// Whether the selected route and every target that the plan needs exist.
pub open spec fn route_is_complete(
    catalog: Catalog,
    route_id: Seq<char>,
    include_fallbacks: bool,
) -> bool {
    &&& catalog.routes@.contains_key(route_id)
    &&& catalog.targets@.contains_key(catalog.routes@[route_id].primary@)
    &&& include_fallbacks ==> forall|i: int|
        0 <= i < catalog.routes@[route_id].fallbacks@.len() ==> catalog.targets@.contains_key(
            (#[trigger] catalog.routes@[route_id].fallbacks@[i])@,
        )
}

/// Whether a hop is the one for a target.
pub open spec fn is_hop_for(plan: RoutePlan, id: Seq<char>, target: Target) -> bool {
    &&& plan.vendor_id@ == target.vendor.id()
    &&& plan.target_id@ == id
    &&& plan.model_id@ == target.model@
    &&& plan.max_output_tokens == target.max_output_tokens
}

/// Whether `fallbacks` are the hops for a route's fallback targets, in order,
/// none with fallbacks of its own.
pub open spec fn are_fallbacks_of(catalog: Catalog, route: Route, fallbacks: Seq<RoutePlan>) -> bool {
    &&& fallbacks.len() == route.fallbacks@.len()
    &&& forall|i: int|
        0 <= i < fallbacks.len() ==> {
            &&& is_hop_for(
                #[trigger] fallbacks[i],
                route.fallbacks@[i]@,
                catalog.targets@[route.fallbacks@[i]@],
            )
            &&& fallbacks[i].fallback_plans@.len() == 0
        }
}

/// Whether `resolved` is the selected route with its flat plan.
pub open spec fn is_resolution(
    resolved: ResolvedRoute,
    catalog: Catalog,
    route_id: Seq<char>,
    include_fallbacks: bool,
) -> bool {
    let route = catalog.routes@[route_id];
    let primary = catalog.targets@[route.primary@];
    &&& resolved.route_id@ == route_id
    &&& resolved.target_id@ == route.primary@
    &&& resolved.max_output_tokens == primary.max_output_tokens
    &&& is_hop_for(resolved.plan, route.primary@, primary)
    &&& if include_fallbacks {
        are_fallbacks_of(catalog, route, resolved.plan.fallback_plans@)
    } else {
        resolved.plan.fallback_plans@.len() == 0
    }
}

fn is_configured_route(catalog: &Catalog, name: &str) -> (configured: bool)
    ensures
        configured == configured_route(*catalog, name@),
{
    !name.is_empty() && same_text(trim(name), name) && catalog.routes.contains_key(name)
}

fn target<'a>(catalog: &'a Catalog, id: &str) -> (target: Result<&'a Target, IngressError>)
    ensures
        if catalog.targets@.contains_key(id@) {
            target matches Ok(target) && *target == catalog.targets@[id@]
        } else {
            target matches Err(error) && error is RequestOrchestrationFailed
        },
{
    match catalog.targets.get(id) {
        Some(target) => Ok(target),
        None => Err(IngressError::RequestOrchestrationFailed),
    }
}

fn plan_for_target(id: &str, target: &Target, fallback_plans: Vec<RoutePlan>) -> (plan: RoutePlan)
    ensures
        is_hop_for(plan, id@, *target),
        plan.fallback_plans == fallback_plans,
{
    RoutePlan {
        vendor_id: target.vendor.as_str().to_owned(),
        target_id: id.to_owned(),
        model_id: target.model.clone(),
        max_output_tokens: target.max_output_tokens,
        fallback_plans,
    }
}

fn fallback_hops(catalog: &Catalog, route: &Route) -> (hops: Result<Vec<RoutePlan>, IngressError>)
    ensures
        match hops {
            Ok(hops) => {
                &&& are_fallbacks_of(*catalog, *route, hops@)
                &&& forall|i: int|
                    0 <= i < route.fallbacks@.len() ==> catalog.targets@.contains_key(
                        (#[trigger] route.fallbacks@[i])@,
                    )
            },
            Err(error) => {
                &&& error is RequestOrchestrationFailed
                &&& exists|i: int|
                    0 <= i < route.fallbacks@.len() && !catalog.targets@.contains_key(
                        (#[trigger] route.fallbacks@[i])@,
                    )
            },
        },
{
    let mut hops: Vec<RoutePlan> = Vec::new();
    let mut i: usize = 0;
    while i < route.fallbacks.len()
        invariant
            i <= route.fallbacks.len(),
            hops@.len() == i,
            forall|k: int|
                0 <= k < i ==> {
                    &&& is_hop_for(
                        #[trigger] hops@[k],
                        route.fallbacks@[k]@,
                        catalog.targets@[route.fallbacks@[k]@],
                    )
                    &&& hops@[k].fallback_plans@.len() == 0
                },
            forall|k: int|
                0 <= k < i ==> catalog.targets@.contains_key((#[trigger] route.fallbacks@[k])@),
        decreases route.fallbacks.len() - i,
    {
        let id: &str = route.fallbacks[i].as_str();
        match target(catalog, id) {
            Ok(fallback) => {
                hops.push(plan_for_target(id, fallback, Vec::new()));
            },
            Err(error) => {
                assert(!catalog.targets@.contains_key(route.fallbacks@[i as int]@));
                return Err(error);
            },
        }
        i += 1;
    }
    Ok(hops)
}

/// Selects a configured route and builds its flat target plan.
///
/// Omitted `requested_route` uses the catalog default. Omitted or `true`
/// `allow_fallback` includes the configured fallback chain. `false` limits the
/// plan to the primary target and does not disable that target's retries.
///
/// # Errors
/// - `InvalidRequest` for an unknown route, before any provider access
/// - `RequestOrchestrationFailed` when the catalog lacks the default route or a
///   target that the plan needs
pub fn resolve_route(
    catalog: &Catalog,
    requested_route: Option<&str>,
    allow_fallback: Option<bool>,
) -> (resolved: Result<ResolvedRoute, IngressError>)
    ensures
        ({
            let requested = optional_text(requested_route);
            let route_id = selected_route(*catalog, requested);
            let include_fallbacks = allow_fallback != Some(false);
            if requested matches Some(name) && !configured_route(*catalog, name) {
                resolved matches Err(IngressError::InvalidRequest(message)) && message@
                    == "Unknown route"@
            } else if !route_is_complete(*catalog, route_id, include_fallbacks) {
                resolved matches Err(error) && error is RequestOrchestrationFailed
            } else {
                resolved matches Ok(resolved) && is_resolution(
                    resolved,
                    *catalog,
                    route_id,
                    include_fallbacks,
                )
            }
        }),
{
    let route_id: &str = match requested_route {
        None => catalog.default_route.as_str(),
        Some(name) => {
            if !is_configured_route(catalog, name) {
                return Err(IngressError::InvalidRequest("Unknown route".to_owned()));
            }
            name
        },
    };
    let route: &Route = match catalog.routes.get(route_id) {
        Some(route) => route,
        None => {
            return Err(IngressError::RequestOrchestrationFailed);
        },
    };
    let primary: &Target = match target(catalog, route.primary.as_str()) {
        Ok(primary) => primary,
        Err(error) => {
            return Err(error);
        },
    };
    let include_fallbacks: bool = match allow_fallback {
        Some(allowed) => allowed,
        None => true,
    };
    let fallback_plans: Vec<RoutePlan> = if include_fallbacks {
        match fallback_hops(catalog, route) {
            Ok(hops) => hops,
            Err(error) => {
                return Err(error);
            },
        }
    } else {
        Vec::new()
    };
    Ok(
        ResolvedRoute {
            route_id: route_id.to_owned(),
            target_id: route.primary.clone(),
            max_output_tokens: primary.max_output_tokens,
            plan: plan_for_target(route.primary.as_str(), primary, fallback_plans),
        },
    )
}

} // verus!
