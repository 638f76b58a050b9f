//! A route: the pattern within a zone whose requests run the script.

use crate::error::{Destination, Field, PublishError, PublishErrorView};
use crate::target::{text_or_empty, Target, TargetView};
use crate::validate::route_requirements;
use vstd::prelude::*;

verus! {

/// A route to register for a script.
#[derive(Debug, Clone, PartialEq, Eq)]
pub struct Route {
    pub zone_id: String,
    pub pattern: String,
    pub script: String,
}

/// The mathematical content of a [`Route`].
pub struct RouteView {
    pub zone_id: Seq<char>,
    pub pattern: Seq<char>,
    pub script: Seq<char>,
}

impl View for Route {
    type V = RouteView;

    open spec fn view(&self) -> RouteView {
        RouteView { zone_id: self.zone_id@, pattern: self.pattern@, script: self.script@ }
    }
}

/// The route that a descriptor describes: its zone, its pattern and its script.
/// Without a zone or without a pattern there is none, and the error lists which
/// of the two is missing.
pub open spec fn route_of(target: TargetView) -> Result<RouteView, PublishErrorView> {
    if route_requirements(target).len() == 0 {
        Ok(
            RouteView {
                zone_id: text_or_empty(target.zone_id),
                pattern: text_or_empty(target.route),
                script: target.name,
            },
        )
    } else {
        Err(
            PublishErrorView::MissingFields {
                fields: route_requirements(target),
                destination: Destination::Route,
            },
        )
    }
}

/// A route or an error, each taken by its view.
pub open spec fn route_result_view(made: Result<Route, PublishError>) -> Result<
    RouteView,
    PublishErrorView,
> {
    match made {
        Ok(route) => Ok(route@),
        Err(error) => Err(error@),
    }
}

impl Route {
    /// Makes the route of a descriptor from its zone and its pattern.
    pub fn new(target: &Target) -> (made: Result<Route, PublishError>)
        ensures
            route_result_view(made) == route_of(target@),
    {
        let mut missing: Vec<Field> = Vec::new();
        let zone_id = match &target.zone_id {
            Some(zone) => zone.clone(),
            None => String::new(),
        };
        let pattern = match &target.route {
            Some(route) => route.clone(),
            None => String::new(),
        };
        if zone_id.as_str().is_empty() {
            missing.push(Field::ZoneId);
        }
        if pattern.as_str().is_empty() {
            missing.push(Field::Route);
        }
        assert(missing@ =~= route_requirements(target@));
        if missing.len() == 0 {
            Ok(Route { zone_id, pattern, script: target.name.clone() })
        } else {
            Err(PublishError::MissingFields { fields: missing, destination: Destination::Route })
        }
    }
}

} // verus!
