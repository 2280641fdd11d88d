//! Rules for layer surfaces.
use vstd::prelude::*;

use crate::config::misc::opt_text;
use crate::config::rules::{BlockOutFrom, CornerRadius, Look, PopupsRule};
use crate::config::same::{all_same, same_opt_text, views, SameView};
use crate::niri::scene::Layer;

verus! {

/// What a rule looks at in a layer surface. What is missing is not looked at.
#[derive(Debug)]
pub struct Match {
    /// A regular expression for the namespace.
    pub namespace: Option<String>,
    pub at_startup: Option<bool>,
    pub layer: Option<Layer>,
}

/// What is looked at, in the abstract.
#[verifier::ext_equal]
pub struct MatchView {
    pub namespace: Option<Seq<char>>,
    pub at_startup: Option<bool>,
    pub layer: Option<Layer>,
}

impl View for Match {
    type V = MatchView;

    open spec fn view(&self) -> MatchView {
        MatchView {
            namespace: opt_text(self.namespace),
            at_startup: self.at_startup,
            layer: self.layer,
        }
    }
}

impl SameView for Match {
    fn same(&self, other: &Match) -> (r: bool) {
        same_opt_text(&self.namespace, &other.namespace)
            && self.at_startup == other.at_startup
            && self.layer == other.layer
    }
}

/// A rule for the layer surfaces that one of the matches is for and none of the excludes.
#[derive(Debug)]
pub struct LayerRule {
    pub matches: Vec<Match>,
    pub excludes: Vec<Match>,
    pub opacity: Option<u32>,
    pub block_out_from: Option<BlockOutFrom>,
    pub shadow: Look,
    pub geometry_corner_radius: Option<CornerRadius>,
    pub place_within_backdrop: Option<bool>,
    pub baba_is_float: Option<bool>,
    pub background_effect: Look,
    pub popups: PopupsRule,
    pub popups_background_effect: Look,
}

/// A rule in the abstract.
#[verifier::ext_equal]
pub struct LayerRuleView {
    pub matches: Seq<MatchView>,
    pub excludes: Seq<MatchView>,
    pub opacity: Option<u32>,
    pub block_out_from: Option<BlockOutFrom>,
    pub shadow: Seq<u64>,
    pub geometry_corner_radius: Option<CornerRadius>,
    pub place_within_backdrop: Option<bool>,
    pub baba_is_float: Option<bool>,
    pub background_effect: Seq<u64>,
    pub popups: PopupsRule,
    pub popups_background_effect: Seq<u64>,
}

impl View for LayerRule {
    type V = LayerRuleView;

    open spec fn view(&self) -> LayerRuleView {
        LayerRuleView {
            matches: views(self.matches@),
            excludes: views(self.excludes@),
            opacity: self.opacity,
            block_out_from: self.block_out_from,
            shadow: self.shadow@,
            geometry_corner_radius: self.geometry_corner_radius,
            place_within_backdrop: self.place_within_backdrop,
            baba_is_float: self.baba_is_float,
            background_effect: self.background_effect@,
            popups: self.popups,
            popups_background_effect: self.popups_background_effect@,
        }
    }
}

impl SameView for LayerRule {
    fn same(&self, other: &LayerRule) -> (r: bool) {
        all_same(&self.matches, &other.matches)
            && all_same(&self.excludes, &other.excludes)
            && self.opacity == other.opacity
            && self.block_out_from == other.block_out_from
            && self.shadow.same(&other.shadow)
            && self.geometry_corner_radius == other.geometry_corner_radius
            && self.place_within_backdrop == other.place_within_backdrop
            && self.baba_is_float == other.baba_is_float
            && self.background_effect.same(&other.background_effect)
            && self.popups == other.popups
            && self.popups_background_effect.same(&other.popups_background_effect)
    }
}

} // verus!
