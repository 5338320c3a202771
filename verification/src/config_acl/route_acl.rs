//! Checks of the legacy routes and header rules of a raw gateway configuration.
use vstd::prelude::*;

use crate::checks::{first_error, lemma_first_error_prefix, lemma_first_error_step, or_else};
use crate::config_acl::error::{acl_outcome, validation_error, InfrastructureAclError};
use crate::config_acl::ids::{
    header_rule_ids, header_rule_ids_view, model_ids, model_ids_view, provider_ids,
    provider_ids_view, route_ids, route_ids_view,
};
use crate::config_acl::raw_model::{RawGatewayConfig, RawHeaderRule, RawRoute, RawRuleScope};
use crate::config_acl::util::{contains_str, strs_view, unique_ids, unique_ids_error};
use crate::text::{cat3, cat5, is_blank, is_blank_str};

verus! {

/// The check of the `i`-th route: a non-blank matcher, a known provider and,
/// when set, a known model.
pub open spec fn route_check(
    routes: Seq<RawRoute>,
    providers: Seq<Seq<char>>,
    models: Seq<Seq<char>>,
) -> spec_fn(int) -> Option<Seq<char>> {
    |i: int|
        {
            let r = routes[i];
            if is_blank(r.matcher@) {
                Some("route '"@ + r.id@ + "' matcher cannot be empty"@)
            } else if !providers.contains(r.provider_id@) {
                Some("route '"@ + r.id@ + "' references missing provider '"@ + r.provider_id@ + "'"@)
            } else {
                match r.model_id {
                    Some(m) => if !models.contains(m@) {
                        Some("route '"@ + r.id@ + "' references missing model '"@ + m@ + "'"@)
                    } else {
                        None
                    },
                    None => None,
                }
            }
        }
}

/// The error of a scoped header rule's target among the `kind` identifiers `ids`.
pub open spec fn header_rule_target_error(
    rule: RawHeaderRule,
    ids: Seq<Seq<char>>,
    kind: Seq<char>,
) -> Option<Seq<char>> {
    match rule.target_id {
        None => Some("header_rule '"@ + rule.id@ + "' requires target_id for "@ + kind + " scope"@),
        Some(t) => if ids.contains(t@) {
            None
        } else {
            Some("header_rule '"@ + rule.id@ + "' references missing "@ + kind + " '"@ + t@ + "'"@)
        },
    }
}

/// The check of the `i`-th header rule: its target must fit its scope, and it
/// must carry at least one action.
pub open spec fn header_rule_check(
    rules: Seq<RawHeaderRule>,
    providers: Seq<Seq<char>>,
    models: Seq<Seq<char>>,
    routes: Seq<Seq<char>>,
) -> spec_fn(int) -> Option<Seq<char>> {
    |i: int|
        {
            let rule = rules[i];
            let target_error = match rule.scope {
                RawRuleScope::Global => if rule.target_id is Some {
                    Some("header_rule '"@ + rule.id@ + "' must not define target_id for global scope"@)
                } else {
                    None
                },
                RawRuleScope::Provider => header_rule_target_error(rule, providers, "provider"@),
                RawRuleScope::Model => header_rule_target_error(rule, models, "model"@),
                RawRuleScope::Route => header_rule_target_error(rule, routes, "route"@),
            };
            or_else(
                target_error,
                if rule.actions@.len() == 0 {
                    Some("header_rule '"@ + rule.id@ + "' must contain at least one action"@)
                } else {
                    None
                },
            )
        }
}

/// The first error of the routes and header rules of `raw`, if any.
pub open spec fn route_and_header_rule_error(raw: RawGatewayConfig) -> Option<Seq<char>> {
    let providers = provider_ids_view(raw.providers@);
    let models = model_ids_view(raw.models@);
    let routes = route_ids_view(raw.routes@);
    or_else(
        unique_ids_error(routes, "route"@),
        or_else(
            unique_ids_error(header_rule_ids_view(raw.header_rules@), "header_rule"@),
            or_else(
                first_error(raw.routes@.len(), route_check(raw.routes@, providers, models)),
                first_error(
                    raw.header_rules@.len(),
                    header_rule_check(raw.header_rules@, providers, models, routes),
                ),
            ),
        ),
    )
}

fn validate_routes(raw: &RawGatewayConfig, providers: &Vec<&str>, models: &Vec<&str>) -> (r: Result<
    (),
    InfrastructureAclError,
>)
    ensures
        acl_outcome(
            r,
            first_error(
                raw.routes@.len(),
                route_check(raw.routes@, strs_view(providers@), strs_view(models@)),
            ),
        ),
{
    let ghost check = route_check(raw.routes@, strs_view(providers@), strs_view(models@));
    let mut i: usize = 0;
    while i < raw.routes.len()
        invariant
            check == route_check(raw.routes@, strs_view(providers@), strs_view(models@)),
            i <= raw.routes@.len(),
            first_error(i as nat, check) is None,
        decreases raw.routes@.len() - i,
    {
        proof {
            lemma_first_error_step(i as nat, check);
            lemma_first_error_prefix((i + 1) as nat, raw.routes@.len(), check);
        }
        let route = &raw.routes[i];
        if is_blank_str(route.matcher.as_str()) {
            return validation_error(
                cat3("route '", route.id.as_str(), "' matcher cannot be empty"),
            );
        }
        if !contains_str(providers, route.provider_id.as_str()) {
            return validation_error(
                cat5(
                    "route '",
                    route.id.as_str(),
                    "' references missing provider '",
                    route.provider_id.as_str(),
                    "'",
                ),
            );
        }
        if let Some(m) = &route.model_id {
            if !contains_str(models, m.as_str()) {
                return validation_error(
                    cat5(
                        "route '",
                        route.id.as_str(),
                        "' references missing model '",
                        m.as_str(),
                        "'",
                    ),
                );
            }
        }
        i = i + 1;
    }
    Ok(())
}

fn validate_header_rule_target(rule: &RawHeaderRule, ids: &Vec<&str>, kind: &str) -> (r: Result<
    (),
    InfrastructureAclError,
>)
    ensures
        acl_outcome(r, header_rule_target_error(*rule, strs_view(ids@), kind@)),
{
    match &rule.target_id {
        None => validation_error(
            cat5("header_rule '", rule.id.as_str(), "' requires target_id for ", kind, " scope"),
        ),
        Some(t) => {
            if contains_str(ids, t.as_str()) {
                Ok(())
            } else {
                let mut m = cat5(
                    "header_rule '",
                    rule.id.as_str(),
                    "' references missing ",
                    kind,
                    " '",
                );
                m.append(t.as_str());
                m.append("'");
                validation_error(m)
            }
        },
    }
}

fn validate_header_rules(
    raw: &RawGatewayConfig,
    providers: &Vec<&str>,
    models: &Vec<&str>,
    routes: &Vec<&str>,
) -> (r: Result<(), InfrastructureAclError>)
    ensures
        acl_outcome(
            r,
            first_error(
                raw.header_rules@.len(),
                header_rule_check(
                    raw.header_rules@,
                    strs_view(providers@),
                    strs_view(models@),
                    strs_view(routes@),
                ),
            ),
        ),
{
    let ghost check = header_rule_check(
        raw.header_rules@,
        strs_view(providers@),
        strs_view(models@),
        strs_view(routes@),
    );
    let mut i: usize = 0;
    while i < raw.header_rules.len()
        invariant
            check == header_rule_check(
                raw.header_rules@,
                strs_view(providers@),
                strs_view(models@),
                strs_view(routes@),
            ),
            i <= raw.header_rules@.len(),
            first_error(i as nat, check) is None,
        decreases raw.header_rules@.len() - i,
    {
        proof {
            lemma_first_error_step(i as nat, check);
            lemma_first_error_prefix((i + 1) as nat, raw.header_rules@.len(), check);
        }
        let rule = &raw.header_rules[i];
        let target = match rule.scope {
            RawRuleScope::Global => {
                if rule.target_id.is_some() {
                    validation_error(
                        cat3(
                            "header_rule '",
                            rule.id.as_str(),
                            "' must not define target_id for global scope",
                        ),
                    )
                } else {
                    Ok(())
                }
            },
            RawRuleScope::Provider => validate_header_rule_target(rule, providers, "provider"),
            RawRuleScope::Model => validate_header_rule_target(rule, models, "model"),
            RawRuleScope::Route => validate_header_rule_target(rule, routes, "route"),
        };
        if target.is_err() {
            return target;
        }
        if rule.actions.len() == 0 {
            return validation_error(
                cat3("header_rule '", rule.id.as_str(), "' must contain at least one action"),
            );
        }
        i = i + 1;
    }
    Ok(())
}

/// Checks the routes and header rules of `raw`: unique route and header rule
/// identifiers, then each route, then each header rule.
pub fn validate_route_and_header_rule_subset(raw: &RawGatewayConfig) -> (r: Result<
    (),
    InfrastructureAclError,
>)
    ensures
        acl_outcome(r, route_and_header_rule_error(*raw)),
{
    let providers = provider_ids(&raw.providers);
    let models = model_ids(&raw.models);
    let routes = route_ids(&raw.routes);
    if let Err(e) = unique_ids(&routes, "route") {
        return Err(e);
    }
    let rule_ids = header_rule_ids(&raw.header_rules);
    if let Err(e) = unique_ids(&rule_ids, "header_rule") {
        return Err(e);
    }
    let rr = validate_routes(raw, &providers, &models);
    if rr.is_err() {
        return rr;
    }
    validate_header_rules(raw, &providers, &models, &routes)
}

} // verus!
