//! The AQL query types: parsing and explaining queries, the execution
//! plan vocabulary and the rules of the query optimizer.

use vstd::prelude::*;
use crate::api::arg::{IntoText, IntoOption};
use crate::api::text::str_eq;
use crate::api::query::{Query, Value, ValueView, bindings_map, bindings_view, binding_names};

verus! {

/// The rules of the AQL query optimizer.
#[derive(Debug, PartialEq, Eq, Hash)]
pub enum OptimizerRule {
    /// Pseudo-rule that matches all rules.
    All,
    /// Moves calculations up in the processing pipeline.
    MoveCalculationsUp,
    /// Moves filters up in the processing pipeline.
    MoveFiltersUp,
    /// Pre-sorts the right-hand side of IN operators.
    SortInValues,
    /// Removes or replaces filters whose outcome is known.
    RemoveUnnecessaryFilters,
    /// Replaces redundant calculations by a single one.
    RemoveRedundantCalculations,
    /// Removes calculations whose result is not used.
    RemoveUnnecessaryCalculations,
    /// Merges multiple sorts into fewer.
    RemoveRedundantSorts,
    /// Permutes adjacent FOR statements.
    InterchangeAdjacentEnumerations,
    /// Removes unused INTO clauses of COLLECT statements.
    RemoveCollectVariables,
    /// Inserts constant values into filter conditions.
    PropagateConstantAttributes,
    /// Replaces OR-combined equality conditions by IN conditions.
    ReplaceOrWithIn,
    /// Combines OR conditions on the same attribute.
    RemoveRedundantOr,
    /// Uses an index to iterate over a collection.
    UseIndexes,
    /// Removes filters that an index already covers.
    RemoveFilterCoveredByIndex,
    /// Removes filters that a traversal already covers.
    RemoveFilterCoveredByTraversal,
    /// Uses an index to avoid a sort.
    UseIndexForSort,
    /// Moves calculations down in the processing pipeline.
    MoveCalculationsDown,
    /// Processes updates in smaller batches.
    PatchUpdateStatements,
    /// Optimizes traversals.
    OptimizeTraversals,
    /// Pulls sub-queries out into their surrounding scope.
    InlineSubQueries,
    /// Uses a geo index.
    GeoIndexOptimizer,
    /// Removes a SORT RAND() expression.
    RemoveSortRand,
    /// Returns projections of documents only.
    ReduceExtractionToProjection,
    /// Distributes query parts in a cluster.
    DistributeInCluster,
    /// Inserts scatter, gather and remote nodes in a cluster.
    ScatterInCluster,
    /// Moves filters up in a distributed plan.
    DistributeFilterCalcToCluster,
    /// Moves sorts up in a distributed plan.
    DistributeSortToCluster,
    /// Handles calculations centrally instead of distributing them.
    RemoveUnnecessaryRemoteScatter,
    /// Pushes a remove into the query part that enumerates the documents.
    UnDistributeRemoveAfterEnumColl,
    /// A rule that is not listed here.
    Custom(String),
}

impl Clone for OptimizerRule {
    fn clone(&self) -> (r: Self)
        ensures
            r == *self,
    {
        match self {
            OptimizerRule::All => OptimizerRule::All,
            OptimizerRule::MoveCalculationsUp => OptimizerRule::MoveCalculationsUp,
            OptimizerRule::MoveFiltersUp => OptimizerRule::MoveFiltersUp,
            OptimizerRule::SortInValues => OptimizerRule::SortInValues,
            OptimizerRule::RemoveUnnecessaryFilters => OptimizerRule::RemoveUnnecessaryFilters,
            OptimizerRule::RemoveRedundantCalculations => OptimizerRule::RemoveRedundantCalculations,
            OptimizerRule::RemoveUnnecessaryCalculations => OptimizerRule::RemoveUnnecessaryCalculations,
            OptimizerRule::RemoveRedundantSorts => OptimizerRule::RemoveRedundantSorts,
            OptimizerRule::InterchangeAdjacentEnumerations => OptimizerRule::InterchangeAdjacentEnumerations,
            OptimizerRule::RemoveCollectVariables => OptimizerRule::RemoveCollectVariables,
            OptimizerRule::PropagateConstantAttributes => OptimizerRule::PropagateConstantAttributes,
            OptimizerRule::ReplaceOrWithIn => OptimizerRule::ReplaceOrWithIn,
            OptimizerRule::RemoveRedundantOr => OptimizerRule::RemoveRedundantOr,
            OptimizerRule::UseIndexes => OptimizerRule::UseIndexes,
            OptimizerRule::RemoveFilterCoveredByIndex => OptimizerRule::RemoveFilterCoveredByIndex,
            OptimizerRule::RemoveFilterCoveredByTraversal => OptimizerRule::RemoveFilterCoveredByTraversal,
            OptimizerRule::UseIndexForSort => OptimizerRule::UseIndexForSort,
            OptimizerRule::MoveCalculationsDown => OptimizerRule::MoveCalculationsDown,
            OptimizerRule::PatchUpdateStatements => OptimizerRule::PatchUpdateStatements,
            OptimizerRule::OptimizeTraversals => OptimizerRule::OptimizeTraversals,
            OptimizerRule::InlineSubQueries => OptimizerRule::InlineSubQueries,
            OptimizerRule::GeoIndexOptimizer => OptimizerRule::GeoIndexOptimizer,
            OptimizerRule::RemoveSortRand => OptimizerRule::RemoveSortRand,
            OptimizerRule::ReduceExtractionToProjection => OptimizerRule::ReduceExtractionToProjection,
            OptimizerRule::DistributeInCluster => OptimizerRule::DistributeInCluster,
            OptimizerRule::ScatterInCluster => OptimizerRule::ScatterInCluster,
            OptimizerRule::DistributeFilterCalcToCluster => OptimizerRule::DistributeFilterCalcToCluster,
            OptimizerRule::DistributeSortToCluster => OptimizerRule::DistributeSortToCluster,
            OptimizerRule::RemoveUnnecessaryRemoteScatter => OptimizerRule::RemoveUnnecessaryRemoteScatter,
            OptimizerRule::UnDistributeRemoveAfterEnumColl => OptimizerRule::UnDistributeRemoveAfterEnumColl,
            OptimizerRule::Custom(s) => OptimizerRule::Custom(s.clone()),
        }
    }
}

/// The name by which the server knows a `OptimizerRule`.
pub open spec fn rule_text(r: OptimizerRule) -> Seq<char> {
    match r {
        OptimizerRule::All => "all"@,
        OptimizerRule::MoveCalculationsUp => "move-calculations-up"@,
        OptimizerRule::MoveFiltersUp => "move-filters-up"@,
        OptimizerRule::SortInValues => "sort-in-values"@,
        OptimizerRule::RemoveUnnecessaryFilters => "remove-unnecessary-filters"@,
        OptimizerRule::RemoveRedundantCalculations => "remove-redundant-calculations"@,
        OptimizerRule::RemoveUnnecessaryCalculations => "remove-unnecessary-calculations"@,
        OptimizerRule::RemoveRedundantSorts => "remove-redundant-sorts"@,
        OptimizerRule::InterchangeAdjacentEnumerations => "interchange-adjacent-enumerations"@,
        OptimizerRule::RemoveCollectVariables => "remove-collect-variables"@,
        OptimizerRule::PropagateConstantAttributes => "propagate-constant-attributes"@,
        OptimizerRule::ReplaceOrWithIn => "replace-or-with-in"@,
        OptimizerRule::RemoveRedundantOr => "remove-redundant-or"@,
        OptimizerRule::UseIndexes => "use-indexes"@,
        OptimizerRule::RemoveFilterCoveredByIndex => "remove-filter-covered-by-index"@,
        OptimizerRule::RemoveFilterCoveredByTraversal => "remove-filter-covered-by-traversal"@,
        OptimizerRule::UseIndexForSort => "use-index-for-sort"@,
        OptimizerRule::MoveCalculationsDown => "move-calculations-down"@,
        OptimizerRule::PatchUpdateStatements => "patch-update-statements"@,
        OptimizerRule::OptimizeTraversals => "optimize-traversals"@,
        OptimizerRule::InlineSubQueries => "inline-subqueries"@,
        OptimizerRule::GeoIndexOptimizer => "geo-index-optimizer"@,
        OptimizerRule::RemoveSortRand => "remove-sort-rand"@,
        OptimizerRule::ReduceExtractionToProjection => "reduce-extraction-to-projection"@,
        OptimizerRule::DistributeInCluster => "distribute-in-cluster"@,
        OptimizerRule::ScatterInCluster => "scatter-in-cluster"@,
        OptimizerRule::DistributeFilterCalcToCluster => "distribute-filtercalc-to-cluster"@,
        OptimizerRule::DistributeSortToCluster => "distribute-sort-to-cluster"@,
        OptimizerRule::RemoveUnnecessaryRemoteScatter => "remove-unnecessary-remote-scatter"@,
        OptimizerRule::UnDistributeRemoveAfterEnumColl => "undistribute-remove-after-enum-coll"@,
        OptimizerRule::Custom(s) => s@,
    }
}

/// The listed `OptimizerRule` a name stands for, the first in the list that
/// matches; `None` for any other name.
pub open spec fn known_rule(s: Seq<char>) -> Option<OptimizerRule> {
    if s == "all"@ {
        Some(OptimizerRule::All)
    } else if s == "move-calculations-up"@ {
        Some(OptimizerRule::MoveCalculationsUp)
    } else if s == "move-filters-up"@ {
        Some(OptimizerRule::MoveFiltersUp)
    } else if s == "sort-in-values"@ {
        Some(OptimizerRule::SortInValues)
    } else if s == "remove-unnecessary-filters"@ {
        Some(OptimizerRule::RemoveUnnecessaryFilters)
    } else if s == "remove-redundant-calculations"@ {
        Some(OptimizerRule::RemoveRedundantCalculations)
    } else if s == "remove-unnecessary-calculations"@ {
        Some(OptimizerRule::RemoveUnnecessaryCalculations)
    } else if s == "remove-redundant-sorts"@ {
        Some(OptimizerRule::RemoveRedundantSorts)
    } else if s == "interchange-adjacent-enumerations"@ {
        Some(OptimizerRule::InterchangeAdjacentEnumerations)
    } else if s == "remove-collect-variables"@ {
        Some(OptimizerRule::RemoveCollectVariables)
    } else if s == "propagate-constant-attributes"@ {
        Some(OptimizerRule::PropagateConstantAttributes)
    } else if s == "replace-or-with-in"@ {
        Some(OptimizerRule::ReplaceOrWithIn)
    } else if s == "remove-redundant-or"@ {
        Some(OptimizerRule::RemoveRedundantOr)
    } else if s == "use-indexes"@ {
        Some(OptimizerRule::UseIndexes)
    } else if s == "remove-filter-covered-by-index"@ {
        Some(OptimizerRule::RemoveFilterCoveredByIndex)
    } else if s == "remove-filter-covered-by-traversal"@ {
        Some(OptimizerRule::RemoveFilterCoveredByTraversal)
    } else if s == "use-index-for-sort"@ {
        Some(OptimizerRule::UseIndexForSort)
    } else if s == "move-calculations-down"@ {
        Some(OptimizerRule::MoveCalculationsDown)
    } else if s == "patch-update-statements"@ {
        Some(OptimizerRule::PatchUpdateStatements)
    } else if s == "optimize-traversals"@ {
        Some(OptimizerRule::OptimizeTraversals)
    } else if s == "inline-subqueries"@ {
        Some(OptimizerRule::InlineSubQueries)
    } else if s == "geo-index-optimizer"@ {
        Some(OptimizerRule::GeoIndexOptimizer)
    } else if s == "remove-sort-rand"@ {
        Some(OptimizerRule::RemoveSortRand)
    } else if s == "reduce-extraction-to-projection"@ {
        Some(OptimizerRule::ReduceExtractionToProjection)
    } else if s == "distribute-in-cluster"@ {
        Some(OptimizerRule::DistributeInCluster)
    } else if s == "scatter-in-cluster"@ {
        Some(OptimizerRule::ScatterInCluster)
    } else if s == "distribute-filtercalc-to-cluster"@ {
        Some(OptimizerRule::DistributeFilterCalcToCluster)
    } else if s == "distribute-sort-to-cluster"@ {
        Some(OptimizerRule::DistributeSortToCluster)
    } else if s == "remove-unnecessary-remote-scatter"@ {
        Some(OptimizerRule::RemoveUnnecessaryRemoteScatter)
    } else if s == "undistribute-remove-after-enum-coll"@ {
        Some(OptimizerRule::UnDistributeRemoveAfterEnumColl)
    } else {
        None
    }
}

impl OptimizerRule {
    /// Reads a name as used by the server; a name that is not listed becomes
    /// `Custom`.
    pub fn from_api_str(api_str: &str) -> (r: Self)
        ensures
            match known_rule(api_str@) {
                Some(k) => r == k,
                None => r is Custom,
            },
            rule_text(r) == api_str@,
    {
        if str_eq(api_str, "all") {
            OptimizerRule::All
        } else if str_eq(api_str, "move-calculations-up") {
            OptimizerRule::MoveCalculationsUp
        } else if str_eq(api_str, "move-filters-up") {
            OptimizerRule::MoveFiltersUp
        } else if str_eq(api_str, "sort-in-values") {
            OptimizerRule::SortInValues
        } else if str_eq(api_str, "remove-unnecessary-filters") {
            OptimizerRule::RemoveUnnecessaryFilters
        } else if str_eq(api_str, "remove-redundant-calculations") {
            OptimizerRule::RemoveRedundantCalculations
        } else if str_eq(api_str, "remove-unnecessary-calculations") {
            OptimizerRule::RemoveUnnecessaryCalculations
        } else if str_eq(api_str, "remove-redundant-sorts") {
            OptimizerRule::RemoveRedundantSorts
        } else if str_eq(api_str, "interchange-adjacent-enumerations") {
            OptimizerRule::InterchangeAdjacentEnumerations
        } else if str_eq(api_str, "remove-collect-variables") {
            OptimizerRule::RemoveCollectVariables
        } else if str_eq(api_str, "propagate-constant-attributes") {
            OptimizerRule::PropagateConstantAttributes
        } else if str_eq(api_str, "replace-or-with-in") {
            OptimizerRule::ReplaceOrWithIn
        } else if str_eq(api_str, "remove-redundant-or") {
            OptimizerRule::RemoveRedundantOr
        } else if str_eq(api_str, "use-indexes") {
            OptimizerRule::UseIndexes
        } else if str_eq(api_str, "remove-filter-covered-by-index") {
            OptimizerRule::RemoveFilterCoveredByIndex
        } else if str_eq(api_str, "remove-filter-covered-by-traversal") {
            OptimizerRule::RemoveFilterCoveredByTraversal
        } else if str_eq(api_str, "use-index-for-sort") {
            OptimizerRule::UseIndexForSort
        } else if str_eq(api_str, "move-calculations-down") {
            OptimizerRule::MoveCalculationsDown
        } else if str_eq(api_str, "patch-update-statements") {
            OptimizerRule::PatchUpdateStatements
        } else if str_eq(api_str, "optimize-traversals") {
            OptimizerRule::OptimizeTraversals
        } else if str_eq(api_str, "inline-subqueries") {
            OptimizerRule::InlineSubQueries
        } else if str_eq(api_str, "geo-index-optimizer") {
            OptimizerRule::GeoIndexOptimizer
        } else if str_eq(api_str, "remove-sort-rand") {
            OptimizerRule::RemoveSortRand
        } else if str_eq(api_str, "reduce-extraction-to-projection") {
            OptimizerRule::ReduceExtractionToProjection
        } else if str_eq(api_str, "distribute-in-cluster") {
            OptimizerRule::DistributeInCluster
        } else if str_eq(api_str, "scatter-in-cluster") {
            OptimizerRule::ScatterInCluster
        } else if str_eq(api_str, "distribute-filtercalc-to-cluster") {
            OptimizerRule::DistributeFilterCalcToCluster
        } else if str_eq(api_str, "distribute-sort-to-cluster") {
            OptimizerRule::DistributeSortToCluster
        } else if str_eq(api_str, "remove-unnecessary-remote-scatter") {
            OptimizerRule::RemoveUnnecessaryRemoteScatter
        } else if str_eq(api_str, "undistribute-remove-after-enum-coll") {
            OptimizerRule::UnDistributeRemoveAfterEnumColl
        } else {
            OptimizerRule::Custom(api_str.to_owned())
        }
    }

    /// The name by which the server knows this value.
    pub fn as_api_str(&self) -> (r: &str)
        ensures
            r@ == rule_text(*self),
    {
        match self {
            OptimizerRule::All => "all",
            OptimizerRule::MoveCalculationsUp => "move-calculations-up",
            OptimizerRule::MoveFiltersUp => "move-filters-up",
            OptimizerRule::SortInValues => "sort-in-values",
            OptimizerRule::RemoveUnnecessaryFilters => "remove-unnecessary-filters",
            OptimizerRule::RemoveRedundantCalculations => "remove-redundant-calculations",
            OptimizerRule::RemoveUnnecessaryCalculations => "remove-unnecessary-calculations",
            OptimizerRule::RemoveRedundantSorts => "remove-redundant-sorts",
            OptimizerRule::InterchangeAdjacentEnumerations => "interchange-adjacent-enumerations",
            OptimizerRule::RemoveCollectVariables => "remove-collect-variables",
            OptimizerRule::PropagateConstantAttributes => "propagate-constant-attributes",
            OptimizerRule::ReplaceOrWithIn => "replace-or-with-in",
            OptimizerRule::RemoveRedundantOr => "remove-redundant-or",
            OptimizerRule::UseIndexes => "use-indexes",
            OptimizerRule::RemoveFilterCoveredByIndex => "remove-filter-covered-by-index",
            OptimizerRule::RemoveFilterCoveredByTraversal => "remove-filter-covered-by-traversal",
            OptimizerRule::UseIndexForSort => "use-index-for-sort",
            OptimizerRule::MoveCalculationsDown => "move-calculations-down",
            OptimizerRule::PatchUpdateStatements => "patch-update-statements",
            OptimizerRule::OptimizeTraversals => "optimize-traversals",
            OptimizerRule::InlineSubQueries => "inline-subqueries",
            OptimizerRule::GeoIndexOptimizer => "geo-index-optimizer",
            OptimizerRule::RemoveSortRand => "remove-sort-rand",
            OptimizerRule::ReduceExtractionToProjection => "reduce-extraction-to-projection",
            OptimizerRule::DistributeInCluster => "distribute-in-cluster",
            OptimizerRule::ScatterInCluster => "scatter-in-cluster",
            OptimizerRule::DistributeFilterCalcToCluster => "distribute-filtercalc-to-cluster",
            OptimizerRule::DistributeSortToCluster => "distribute-sort-to-cluster",
            OptimizerRule::RemoveUnnecessaryRemoteScatter => "remove-unnecessary-remote-scatter",
            OptimizerRule::UnDistributeRemoveAfterEnumColl => "undistribute-remove-after-enum-coll",
            OptimizerRule::Custom(s) => s.as_str(),
        }
    }
}

/// Each listed optimizer rule has the name by which ArangoDB knows it, and
/// that name reads back as the rule.
pub proof fn lemma_rule_names()
    ensures
        rule_text(OptimizerRule::All) == "all"@ && known_rule("all"@) == Some(OptimizerRule::All),
        rule_text(OptimizerRule::MoveCalculationsUp) == "move-calculations-up"@ && known_rule("move-calculations-up"@) == Some(OptimizerRule::MoveCalculationsUp),
        rule_text(OptimizerRule::MoveFiltersUp) == "move-filters-up"@ && known_rule("move-filters-up"@) == Some(OptimizerRule::MoveFiltersUp),
        rule_text(OptimizerRule::SortInValues) == "sort-in-values"@ && known_rule("sort-in-values"@) == Some(OptimizerRule::SortInValues),
        rule_text(OptimizerRule::RemoveUnnecessaryFilters) == "remove-unnecessary-filters"@ && known_rule("remove-unnecessary-filters"@) == Some(OptimizerRule::RemoveUnnecessaryFilters),
        rule_text(OptimizerRule::RemoveRedundantCalculations) == "remove-redundant-calculations"@ && known_rule("remove-redundant-calculations"@) == Some(OptimizerRule::RemoveRedundantCalculations),
        rule_text(OptimizerRule::RemoveUnnecessaryCalculations) == "remove-unnecessary-calculations"@ && known_rule("remove-unnecessary-calculations"@) == Some(OptimizerRule::RemoveUnnecessaryCalculations),
        rule_text(OptimizerRule::RemoveRedundantSorts) == "remove-redundant-sorts"@ && known_rule("remove-redundant-sorts"@) == Some(OptimizerRule::RemoveRedundantSorts),
        rule_text(OptimizerRule::InterchangeAdjacentEnumerations) == "interchange-adjacent-enumerations"@ && known_rule("interchange-adjacent-enumerations"@) == Some(OptimizerRule::InterchangeAdjacentEnumerations),
        rule_text(OptimizerRule::RemoveCollectVariables) == "remove-collect-variables"@ && known_rule("remove-collect-variables"@) == Some(OptimizerRule::RemoveCollectVariables),
        rule_text(OptimizerRule::PropagateConstantAttributes) == "propagate-constant-attributes"@ && known_rule("propagate-constant-attributes"@) == Some(OptimizerRule::PropagateConstantAttributes),
        rule_text(OptimizerRule::ReplaceOrWithIn) == "replace-or-with-in"@ && known_rule("replace-or-with-in"@) == Some(OptimizerRule::ReplaceOrWithIn),
        rule_text(OptimizerRule::RemoveRedundantOr) == "remove-redundant-or"@ && known_rule("remove-redundant-or"@) == Some(OptimizerRule::RemoveRedundantOr),
        rule_text(OptimizerRule::UseIndexes) == "use-indexes"@ && known_rule("use-indexes"@) == Some(OptimizerRule::UseIndexes),
        rule_text(OptimizerRule::RemoveFilterCoveredByIndex) == "remove-filter-covered-by-index"@ && known_rule("remove-filter-covered-by-index"@) == Some(OptimizerRule::RemoveFilterCoveredByIndex),
        rule_text(OptimizerRule::RemoveFilterCoveredByTraversal) == "remove-filter-covered-by-traversal"@ && known_rule("remove-filter-covered-by-traversal"@) == Some(OptimizerRule::RemoveFilterCoveredByTraversal),
        rule_text(OptimizerRule::UseIndexForSort) == "use-index-for-sort"@ && known_rule("use-index-for-sort"@) == Some(OptimizerRule::UseIndexForSort),
        rule_text(OptimizerRule::MoveCalculationsDown) == "move-calculations-down"@ && known_rule("move-calculations-down"@) == Some(OptimizerRule::MoveCalculationsDown),
        rule_text(OptimizerRule::PatchUpdateStatements) == "patch-update-statements"@ && known_rule("patch-update-statements"@) == Some(OptimizerRule::PatchUpdateStatements),
        rule_text(OptimizerRule::OptimizeTraversals) == "optimize-traversals"@ && known_rule("optimize-traversals"@) == Some(OptimizerRule::OptimizeTraversals),
        rule_text(OptimizerRule::InlineSubQueries) == "inline-subqueries"@ && known_rule("inline-subqueries"@) == Some(OptimizerRule::InlineSubQueries),
        rule_text(OptimizerRule::GeoIndexOptimizer) == "geo-index-optimizer"@ && known_rule("geo-index-optimizer"@) == Some(OptimizerRule::GeoIndexOptimizer),
        rule_text(OptimizerRule::RemoveSortRand) == "remove-sort-rand"@ && known_rule("remove-sort-rand"@) == Some(OptimizerRule::RemoveSortRand),
        rule_text(OptimizerRule::ReduceExtractionToProjection) == "reduce-extraction-to-projection"@ && known_rule("reduce-extraction-to-projection"@) == Some(OptimizerRule::ReduceExtractionToProjection),
        rule_text(OptimizerRule::DistributeInCluster) == "distribute-in-cluster"@ && known_rule("distribute-in-cluster"@) == Some(OptimizerRule::DistributeInCluster),
        rule_text(OptimizerRule::ScatterInCluster) == "scatter-in-cluster"@ && known_rule("scatter-in-cluster"@) == Some(OptimizerRule::ScatterInCluster),
        rule_text(OptimizerRule::DistributeFilterCalcToCluster) == "distribute-filtercalc-to-cluster"@ && known_rule("distribute-filtercalc-to-cluster"@) == Some(OptimizerRule::DistributeFilterCalcToCluster),
        rule_text(OptimizerRule::DistributeSortToCluster) == "distribute-sort-to-cluster"@ && known_rule("distribute-sort-to-cluster"@) == Some(OptimizerRule::DistributeSortToCluster),
        rule_text(OptimizerRule::RemoveUnnecessaryRemoteScatter) == "remove-unnecessary-remote-scatter"@ && known_rule("remove-unnecessary-remote-scatter"@) == Some(OptimizerRule::RemoveUnnecessaryRemoteScatter),
        rule_text(OptimizerRule::UnDistributeRemoveAfterEnumColl) == "undistribute-remove-after-enum-coll"@ && known_rule("undistribute-remove-after-enum-coll"@) == Some(OptimizerRule::UnDistributeRemoveAfterEnumColl),
{
    lemma_rule_text_read_back(OptimizerRule::All);
    lemma_rule_text_read_back(OptimizerRule::MoveCalculationsUp);
    lemma_rule_text_read_back(OptimizerRule::MoveFiltersUp);
    lemma_rule_text_read_back(OptimizerRule::SortInValues);
    lemma_rule_text_read_back(OptimizerRule::RemoveUnnecessaryFilters);
    lemma_rule_text_read_back(OptimizerRule::RemoveRedundantCalculations);
    lemma_rule_text_read_back(OptimizerRule::RemoveUnnecessaryCalculations);
    lemma_rule_text_read_back(OptimizerRule::RemoveRedundantSorts);
    lemma_rule_text_read_back(OptimizerRule::InterchangeAdjacentEnumerations);
    lemma_rule_text_read_back(OptimizerRule::RemoveCollectVariables);
    lemma_rule_text_read_back(OptimizerRule::PropagateConstantAttributes);
    lemma_rule_text_read_back(OptimizerRule::ReplaceOrWithIn);
    lemma_rule_text_read_back(OptimizerRule::RemoveRedundantOr);
    lemma_rule_text_read_back(OptimizerRule::UseIndexes);
    lemma_rule_text_read_back(OptimizerRule::RemoveFilterCoveredByIndex);
    lemma_rule_text_read_back(OptimizerRule::RemoveFilterCoveredByTraversal);
    lemma_rule_text_read_back(OptimizerRule::UseIndexForSort);
    lemma_rule_text_read_back(OptimizerRule::MoveCalculationsDown);
    lemma_rule_text_read_back(OptimizerRule::PatchUpdateStatements);
    lemma_rule_text_read_back(OptimizerRule::OptimizeTraversals);
    lemma_rule_text_read_back(OptimizerRule::InlineSubQueries);
    lemma_rule_text_read_back(OptimizerRule::GeoIndexOptimizer);
    lemma_rule_text_read_back(OptimizerRule::RemoveSortRand);
    lemma_rule_text_read_back(OptimizerRule::ReduceExtractionToProjection);
    lemma_rule_text_read_back(OptimizerRule::DistributeInCluster);
    lemma_rule_text_read_back(OptimizerRule::ScatterInCluster);
    lemma_rule_text_read_back(OptimizerRule::DistributeFilterCalcToCluster);
    lemma_rule_text_read_back(OptimizerRule::DistributeSortToCluster);
    lemma_rule_text_read_back(OptimizerRule::RemoveUnnecessaryRemoteScatter);
    lemma_rule_text_read_back(OptimizerRule::UnDistributeRemoveAfterEnumColl);
}

/// Reading the name of a listed value gives back the value.
pub proof fn lemma_rule_text_read_back(r: OptimizerRule)
    requires
        !(r is Custom),
    ensures
        known_rule(rule_text(r)) == Some(r),
{
    broadcast use vstd::string::group_string_axioms;
    reveal_strlit("all");
    reveal_strlit("move-calculations-up");
    reveal_strlit("move-filters-up");
    reveal_strlit("sort-in-values");
    reveal_strlit("remove-unnecessary-filters");
    reveal_strlit("remove-redundant-calculations");
    reveal_strlit("remove-unnecessary-calculations");
    reveal_strlit("remove-redundant-sorts");
    reveal_strlit("interchange-adjacent-enumerations");
    reveal_strlit("remove-collect-variables");
    reveal_strlit("propagate-constant-attributes");
    reveal_strlit("replace-or-with-in");
    reveal_strlit("remove-redundant-or");
    reveal_strlit("use-indexes");
    reveal_strlit("remove-filter-covered-by-index");
    reveal_strlit("remove-filter-covered-by-traversal");
    reveal_strlit("use-index-for-sort");
    reveal_strlit("move-calculations-down");
    reveal_strlit("patch-update-statements");
    reveal_strlit("optimize-traversals");
    reveal_strlit("inline-subqueries");
    reveal_strlit("geo-index-optimizer");
    reveal_strlit("remove-sort-rand");
    reveal_strlit("reduce-extraction-to-projection");
    reveal_strlit("distribute-in-cluster");
    reveal_strlit("scatter-in-cluster");
    reveal_strlit("distribute-filtercalc-to-cluster");
    reveal_strlit("distribute-sort-to-cluster");
    reveal_strlit("remove-unnecessary-remote-scatter");
    reveal_strlit("undistribute-remove-after-enum-coll");
    assert("all"@.len() == 3);
    assert("move-calculations-up"@.len() == 20);
    assert("move-filters-up"@.len() == 15);
    assert("sort-in-values"@.len() == 14);
    assert("remove-unnecessary-filters"@.len() == 26);
    assert("remove-redundant-calculations"@.len() == 29);
    assert("remove-unnecessary-calculations"@.len() == 31);
    assert("remove-redundant-sorts"@.len() == 22);
    assert("interchange-adjacent-enumerations"@.len() == 33);
    assert("remove-collect-variables"@.len() == 24);
    assert("propagate-constant-attributes"@.len() == 29);
    assert("replace-or-with-in"@.len() == 18);
    assert("remove-redundant-or"@.len() == 19);
    assert("use-indexes"@.len() == 11);
    assert("remove-filter-covered-by-index"@.len() == 30);
    assert("remove-filter-covered-by-traversal"@.len() == 34);
    assert("use-index-for-sort"@.len() == 18);
    assert("move-calculations-down"@.len() == 22);
    assert("patch-update-statements"@.len() == 23);
    assert("optimize-traversals"@.len() == 19);
    assert("inline-subqueries"@.len() == 17);
    assert("geo-index-optimizer"@.len() == 19);
    assert("remove-sort-rand"@.len() == 16);
    assert("reduce-extraction-to-projection"@.len() == 31);
    assert("distribute-in-cluster"@.len() == 21);
    assert("scatter-in-cluster"@.len() == 18);
    assert("distribute-filtercalc-to-cluster"@.len() == 32);
    assert("distribute-sort-to-cluster"@.len() == 26);
    assert("remove-unnecessary-remote-scatter"@.len() == 33);
    assert("undistribute-remove-after-enum-coll"@.len() == 35);
    assert("propagate-constant-attributes"@[0] != "remove-redundant-calculations"@[0]);
    assert("use-index-for-sort"@[0] != "replace-or-with-in"@[0]);
    assert("move-calculations-down"@[0] != "remove-redundant-sorts"@[0]);
    assert("optimize-traversals"@[0] != "remove-redundant-or"@[0]);
    assert("geo-index-optimizer"@[0] != "remove-redundant-or"@[0]);
    assert("geo-index-optimizer"@[0] != "optimize-traversals"@[0]);
    assert("reduce-extraction-to-projection"@[2] != "remove-unnecessary-calculations"@[2]);
    assert("scatter-in-cluster"@[0] != "replace-or-with-in"@[0]);
    assert("scatter-in-cluster"@[0] != "use-index-for-sort"@[0]);
    assert("distribute-sort-to-cluster"@[0] != "remove-unnecessary-filters"@[0]);
    assert("remove-unnecessary-remote-scatter"@[0] != "interchange-adjacent-enumerations"@[0]);
}

/// The types of the nodes of an execution plan.
#[derive(Clone, Debug, PartialEq, Eq, Hash)]
pub enum ExecutionNodeType {
    SingletonNode,
    EnumerateCollectionNode,
    IndexNode,
    EnumerateListNode,
    FilterNode,
    LimitNode,
    CalculationNode,
    SubQueryNode,
    SortNode,
    AggregateNode,
    ReturnNode,
    InsertNode,
    RemoveNode,
    ReplaceNode,
    UpdateNode,
    UpsertNode,
    NoResultsNode,
    ScatterNode,
    GatherNode,
    DistributeNode,
    RemoteNode,
    /// A node type that is not listed here.
    Unlisted(String),
}

/// The name by which the server knows a `ExecutionNodeType`.
pub open spec fn node_type_text(r: ExecutionNodeType) -> Seq<char> {
    match r {
        ExecutionNodeType::SingletonNode => "SingletonNode"@,
        ExecutionNodeType::EnumerateCollectionNode => "EnumerateCollectionNode"@,
        ExecutionNodeType::IndexNode => "IndexNode"@,
        ExecutionNodeType::EnumerateListNode => "EnumerateListNode"@,
        ExecutionNodeType::FilterNode => "FilterNode"@,
        ExecutionNodeType::LimitNode => "LimitNode"@,
        ExecutionNodeType::CalculationNode => "CalculationNode"@,
        ExecutionNodeType::SubQueryNode => "SubqueryNode"@,
        ExecutionNodeType::SortNode => "SortNode"@,
        ExecutionNodeType::AggregateNode => "AggregateNode"@,
        ExecutionNodeType::ReturnNode => "ReturnNode"@,
        ExecutionNodeType::InsertNode => "InsertNode"@,
        ExecutionNodeType::RemoveNode => "RemoveNode"@,
        ExecutionNodeType::ReplaceNode => "ReplaceNode"@,
        ExecutionNodeType::UpdateNode => "UpdateNode"@,
        ExecutionNodeType::UpsertNode => "UpsertNode"@,
        ExecutionNodeType::NoResultsNode => "NoResultsNode"@,
        ExecutionNodeType::ScatterNode => "ScatterNode"@,
        ExecutionNodeType::GatherNode => "GatherNode"@,
        ExecutionNodeType::DistributeNode => "DistributeNode"@,
        ExecutionNodeType::RemoteNode => "RemoteNode"@,
        ExecutionNodeType::Unlisted(s) => s@,
    }
}

/// The listed `ExecutionNodeType` a name stands for, the first in the list that
/// matches; `None` for any other name.
pub open spec fn known_node_type(s: Seq<char>) -> Option<ExecutionNodeType> {
    if s == "SingletonNode"@ {
        Some(ExecutionNodeType::SingletonNode)
    } else if s == "EnumerateCollectionNode"@ {
        Some(ExecutionNodeType::EnumerateCollectionNode)
    } else if s == "IndexNode"@ {
        Some(ExecutionNodeType::IndexNode)
    } else if s == "EnumerateListNode"@ {
        Some(ExecutionNodeType::EnumerateListNode)
    } else if s == "FilterNode"@ {
        Some(ExecutionNodeType::FilterNode)
    } else if s == "LimitNode"@ {
        Some(ExecutionNodeType::LimitNode)
    } else if s == "CalculationNode"@ {
        Some(ExecutionNodeType::CalculationNode)
    } else if s == "SubqueryNode"@ {
        Some(ExecutionNodeType::SubQueryNode)
    } else if s == "SortNode"@ {
        Some(ExecutionNodeType::SortNode)
    } else if s == "AggregateNode"@ {
        Some(ExecutionNodeType::AggregateNode)
    } else if s == "ReturnNode"@ {
        Some(ExecutionNodeType::ReturnNode)
    } else if s == "InsertNode"@ {
        Some(ExecutionNodeType::InsertNode)
    } else if s == "RemoveNode"@ {
        Some(ExecutionNodeType::RemoveNode)
    } else if s == "ReplaceNode"@ {
        Some(ExecutionNodeType::ReplaceNode)
    } else if s == "UpdateNode"@ {
        Some(ExecutionNodeType::UpdateNode)
    } else if s == "UpsertNode"@ {
        Some(ExecutionNodeType::UpsertNode)
    } else if s == "NoResultsNode"@ {
        Some(ExecutionNodeType::NoResultsNode)
    } else if s == "ScatterNode"@ {
        Some(ExecutionNodeType::ScatterNode)
    } else if s == "GatherNode"@ {
        Some(ExecutionNodeType::GatherNode)
    } else if s == "DistributeNode"@ {
        Some(ExecutionNodeType::DistributeNode)
    } else if s == "RemoteNode"@ {
        Some(ExecutionNodeType::RemoteNode)
    } else {
        None
    }
}

impl ExecutionNodeType {
    /// Reads a name as used by the server; a name that is not listed becomes
    /// `Unlisted`.
    pub fn from_api_str(api_str: &str) -> (r: Self)
        ensures
            match known_node_type(api_str@) {
                Some(k) => r == k,
                None => r is Unlisted,
            },
            node_type_text(r) == api_str@,
    {
        if str_eq(api_str, "SingletonNode") {
            ExecutionNodeType::SingletonNode
        } else if str_eq(api_str, "EnumerateCollectionNode") {
            ExecutionNodeType::EnumerateCollectionNode
        } else if str_eq(api_str, "IndexNode") {
            ExecutionNodeType::IndexNode
        } else if str_eq(api_str, "EnumerateListNode") {
            ExecutionNodeType::EnumerateListNode
        } else if str_eq(api_str, "FilterNode") {
            ExecutionNodeType::FilterNode
        } else if str_eq(api_str, "LimitNode") {
            ExecutionNodeType::LimitNode
        } else if str_eq(api_str, "CalculationNode") {
            ExecutionNodeType::CalculationNode
        } else if str_eq(api_str, "SubqueryNode") {
            ExecutionNodeType::SubQueryNode
        } else if str_eq(api_str, "SortNode") {
            ExecutionNodeType::SortNode
        } else if str_eq(api_str, "AggregateNode") {
            ExecutionNodeType::AggregateNode
        } else if str_eq(api_str, "ReturnNode") {
            ExecutionNodeType::ReturnNode
        } else if str_eq(api_str, "InsertNode") {
            ExecutionNodeType::InsertNode
        } else if str_eq(api_str, "RemoveNode") {
            ExecutionNodeType::RemoveNode
        } else if str_eq(api_str, "ReplaceNode") {
            ExecutionNodeType::ReplaceNode
        } else if str_eq(api_str, "UpdateNode") {
            ExecutionNodeType::UpdateNode
        } else if str_eq(api_str, "UpsertNode") {
            ExecutionNodeType::UpsertNode
        } else if str_eq(api_str, "NoResultsNode") {
            ExecutionNodeType::NoResultsNode
        } else if str_eq(api_str, "ScatterNode") {
            ExecutionNodeType::ScatterNode
        } else if str_eq(api_str, "GatherNode") {
            ExecutionNodeType::GatherNode
        } else if str_eq(api_str, "DistributeNode") {
            ExecutionNodeType::DistributeNode
        } else if str_eq(api_str, "RemoteNode") {
            ExecutionNodeType::RemoteNode
        } else {
            ExecutionNodeType::Unlisted(api_str.to_owned())
        }
    }

    /// The name by which the server knows this value.
    pub fn as_api_str(&self) -> (r: &str)
        ensures
            r@ == node_type_text(*self),
    {
        match self {
            ExecutionNodeType::SingletonNode => "SingletonNode",
            ExecutionNodeType::EnumerateCollectionNode => "EnumerateCollectionNode",
            ExecutionNodeType::IndexNode => "IndexNode",
            ExecutionNodeType::EnumerateListNode => "EnumerateListNode",
            ExecutionNodeType::FilterNode => "FilterNode",
            ExecutionNodeType::LimitNode => "LimitNode",
            ExecutionNodeType::CalculationNode => "CalculationNode",
            ExecutionNodeType::SubQueryNode => "SubqueryNode",
            ExecutionNodeType::SortNode => "SortNode",
            ExecutionNodeType::AggregateNode => "AggregateNode",
            ExecutionNodeType::ReturnNode => "ReturnNode",
            ExecutionNodeType::InsertNode => "InsertNode",
            ExecutionNodeType::RemoveNode => "RemoveNode",
            ExecutionNodeType::ReplaceNode => "ReplaceNode",
            ExecutionNodeType::UpdateNode => "UpdateNode",
            ExecutionNodeType::UpsertNode => "UpsertNode",
            ExecutionNodeType::NoResultsNode => "NoResultsNode",
            ExecutionNodeType::ScatterNode => "ScatterNode",
            ExecutionNodeType::GatherNode => "GatherNode",
            ExecutionNodeType::DistributeNode => "DistributeNode",
            ExecutionNodeType::RemoteNode => "RemoteNode",
            ExecutionNodeType::Unlisted(s) => s.as_str(),
        }
    }
}

/// Each listed type of execution node has the name by which ArangoDB knows
/// it, and that name reads back as the type.
pub proof fn lemma_node_type_names()
    ensures
        node_type_text(ExecutionNodeType::SingletonNode) == "SingletonNode"@ && known_node_type("SingletonNode"@) == Some(ExecutionNodeType::SingletonNode),
        node_type_text(ExecutionNodeType::EnumerateCollectionNode) == "EnumerateCollectionNode"@ && known_node_type("EnumerateCollectionNode"@) == Some(ExecutionNodeType::EnumerateCollectionNode),
        node_type_text(ExecutionNodeType::IndexNode) == "IndexNode"@ && known_node_type("IndexNode"@) == Some(ExecutionNodeType::IndexNode),
        node_type_text(ExecutionNodeType::EnumerateListNode) == "EnumerateListNode"@ && known_node_type("EnumerateListNode"@) == Some(ExecutionNodeType::EnumerateListNode),
        node_type_text(ExecutionNodeType::FilterNode) == "FilterNode"@ && known_node_type("FilterNode"@) == Some(ExecutionNodeType::FilterNode),
        node_type_text(ExecutionNodeType::LimitNode) == "LimitNode"@ && known_node_type("LimitNode"@) == Some(ExecutionNodeType::LimitNode),
        node_type_text(ExecutionNodeType::CalculationNode) == "CalculationNode"@ && known_node_type("CalculationNode"@) == Some(ExecutionNodeType::CalculationNode),
        node_type_text(ExecutionNodeType::SubQueryNode) == "SubqueryNode"@ && known_node_type("SubqueryNode"@) == Some(ExecutionNodeType::SubQueryNode),
        node_type_text(ExecutionNodeType::SortNode) == "SortNode"@ && known_node_type("SortNode"@) == Some(ExecutionNodeType::SortNode),
        node_type_text(ExecutionNodeType::AggregateNode) == "AggregateNode"@ && known_node_type("AggregateNode"@) == Some(ExecutionNodeType::AggregateNode),
        node_type_text(ExecutionNodeType::ReturnNode) == "ReturnNode"@ && known_node_type("ReturnNode"@) == Some(ExecutionNodeType::ReturnNode),
        node_type_text(ExecutionNodeType::InsertNode) == "InsertNode"@ && known_node_type("InsertNode"@) == Some(ExecutionNodeType::InsertNode),
        node_type_text(ExecutionNodeType::RemoveNode) == "RemoveNode"@ && known_node_type("RemoveNode"@) == Some(ExecutionNodeType::RemoveNode),
        node_type_text(ExecutionNodeType::ReplaceNode) == "ReplaceNode"@ && known_node_type("ReplaceNode"@) == Some(ExecutionNodeType::ReplaceNode),
        node_type_text(ExecutionNodeType::UpdateNode) == "UpdateNode"@ && known_node_type("UpdateNode"@) == Some(ExecutionNodeType::UpdateNode),
        node_type_text(ExecutionNodeType::UpsertNode) == "UpsertNode"@ && known_node_type("UpsertNode"@) == Some(ExecutionNodeType::UpsertNode),
        node_type_text(ExecutionNodeType::NoResultsNode) == "NoResultsNode"@ && known_node_type("NoResultsNode"@) == Some(ExecutionNodeType::NoResultsNode),
        node_type_text(ExecutionNodeType::ScatterNode) == "ScatterNode"@ && known_node_type("ScatterNode"@) == Some(ExecutionNodeType::ScatterNode),
        node_type_text(ExecutionNodeType::GatherNode) == "GatherNode"@ && known_node_type("GatherNode"@) == Some(ExecutionNodeType::GatherNode),
        node_type_text(ExecutionNodeType::DistributeNode) == "DistributeNode"@ && known_node_type("DistributeNode"@) == Some(ExecutionNodeType::DistributeNode),
        node_type_text(ExecutionNodeType::RemoteNode) == "RemoteNode"@ && known_node_type("RemoteNode"@) == Some(ExecutionNodeType::RemoteNode),
{
    lemma_node_type_text_read_back(ExecutionNodeType::SingletonNode);
    lemma_node_type_text_read_back(ExecutionNodeType::EnumerateCollectionNode);
    lemma_node_type_text_read_back(ExecutionNodeType::IndexNode);
    lemma_node_type_text_read_back(ExecutionNodeType::EnumerateListNode);
    lemma_node_type_text_read_back(ExecutionNodeType::FilterNode);
    lemma_node_type_text_read_back(ExecutionNodeType::LimitNode);
    lemma_node_type_text_read_back(ExecutionNodeType::CalculationNode);
    lemma_node_type_text_read_back(ExecutionNodeType::SubQueryNode);
    lemma_node_type_text_read_back(ExecutionNodeType::SortNode);
    lemma_node_type_text_read_back(ExecutionNodeType::AggregateNode);
    lemma_node_type_text_read_back(ExecutionNodeType::ReturnNode);
    lemma_node_type_text_read_back(ExecutionNodeType::InsertNode);
    lemma_node_type_text_read_back(ExecutionNodeType::RemoveNode);
    lemma_node_type_text_read_back(ExecutionNodeType::ReplaceNode);
    lemma_node_type_text_read_back(ExecutionNodeType::UpdateNode);
    lemma_node_type_text_read_back(ExecutionNodeType::UpsertNode);
    lemma_node_type_text_read_back(ExecutionNodeType::NoResultsNode);
    lemma_node_type_text_read_back(ExecutionNodeType::ScatterNode);
    lemma_node_type_text_read_back(ExecutionNodeType::GatherNode);
    lemma_node_type_text_read_back(ExecutionNodeType::DistributeNode);
    lemma_node_type_text_read_back(ExecutionNodeType::RemoteNode);
}

/// Reading the name of a listed value gives back the value.
pub proof fn lemma_node_type_text_read_back(r: ExecutionNodeType)
    requires
        !(r is Unlisted),
    ensures
        known_node_type(node_type_text(r)) == Some(r),
{
    broadcast use vstd::string::group_string_axioms;
    reveal_strlit("SingletonNode");
    reveal_strlit("EnumerateCollectionNode");
    reveal_strlit("IndexNode");
    reveal_strlit("EnumerateListNode");
    reveal_strlit("FilterNode");
    reveal_strlit("LimitNode");
    reveal_strlit("CalculationNode");
    reveal_strlit("SubqueryNode");
    reveal_strlit("SortNode");
    reveal_strlit("AggregateNode");
    reveal_strlit("ReturnNode");
    reveal_strlit("InsertNode");
    reveal_strlit("RemoveNode");
    reveal_strlit("ReplaceNode");
    reveal_strlit("UpdateNode");
    reveal_strlit("UpsertNode");
    reveal_strlit("NoResultsNode");
    reveal_strlit("ScatterNode");
    reveal_strlit("GatherNode");
    reveal_strlit("DistributeNode");
    reveal_strlit("RemoteNode");
    assert("SingletonNode"@.len() == 13);
    assert("EnumerateCollectionNode"@.len() == 23);
    assert("IndexNode"@.len() == 9);
    assert("EnumerateListNode"@.len() == 17);
    assert("FilterNode"@.len() == 10);
    assert("LimitNode"@.len() == 9);
    assert("CalculationNode"@.len() == 15);
    assert("SubqueryNode"@.len() == 12);
    assert("SortNode"@.len() == 8);
    assert("AggregateNode"@.len() == 13);
    assert("ReturnNode"@.len() == 10);
    assert("InsertNode"@.len() == 10);
    assert("RemoveNode"@.len() == 10);
    assert("ReplaceNode"@.len() == 11);
    assert("UpdateNode"@.len() == 10);
    assert("UpsertNode"@.len() == 10);
    assert("NoResultsNode"@.len() == 13);
    assert("ScatterNode"@.len() == 11);
    assert("GatherNode"@.len() == 10);
    assert("DistributeNode"@.len() == 14);
    assert("RemoteNode"@.len() == 10);
    assert("LimitNode"@[0] != "IndexNode"@[0]);
    assert("AggregateNode"@[0] != "SingletonNode"@[0]);
    assert("ReturnNode"@[0] != "FilterNode"@[0]);
    assert("InsertNode"@[0] != "FilterNode"@[0]);
    assert("InsertNode"@[0] != "ReturnNode"@[0]);
    assert("RemoveNode"@[0] != "FilterNode"@[0]);
    assert("RemoveNode"@[2] != "ReturnNode"@[2]);
    assert("RemoveNode"@[0] != "InsertNode"@[0]);
    assert("UpdateNode"@[0] != "FilterNode"@[0]);
    assert("UpdateNode"@[0] != "ReturnNode"@[0]);
    assert("UpdateNode"@[0] != "InsertNode"@[0]);
    assert("UpdateNode"@[0] != "RemoveNode"@[0]);
    assert("UpsertNode"@[0] != "FilterNode"@[0]);
    assert("UpsertNode"@[0] != "ReturnNode"@[0]);
    assert("UpsertNode"@[0] != "InsertNode"@[0]);
    assert("UpsertNode"@[0] != "RemoveNode"@[0]);
    assert("UpsertNode"@[2] != "UpdateNode"@[2]);
    assert("NoResultsNode"@[0] != "SingletonNode"@[0]);
    assert("NoResultsNode"@[0] != "AggregateNode"@[0]);
    assert("ScatterNode"@[0] != "ReplaceNode"@[0]);
    assert("GatherNode"@[0] != "FilterNode"@[0]);
    assert("GatherNode"@[0] != "ReturnNode"@[0]);
    assert("GatherNode"@[0] != "InsertNode"@[0]);
    assert("GatherNode"@[0] != "RemoveNode"@[0]);
    assert("GatherNode"@[0] != "UpdateNode"@[0]);
    assert("GatherNode"@[0] != "UpsertNode"@[0]);
    assert("RemoteNode"@[0] != "FilterNode"@[0]);
    assert("RemoteNode"@[2] != "ReturnNode"@[2]);
    assert("RemoteNode"@[0] != "InsertNode"@[0]);
    assert("RemoteNode"@[4] != "RemoveNode"@[4]);
    assert("RemoteNode"@[0] != "UpdateNode"@[0]);
    assert("RemoteNode"@[0] != "UpsertNode"@[0]);
    assert("RemoteNode"@[0] != "GatherNode"@[0]);
}

/// Whether a rule is included in or excluded from the optimization.
#[derive(Clone, Copy, Debug, PartialEq, Eq, Hash, Structural)]
pub enum IncludedExcluded {
    Included,
    Excluded,
}

/// What identifies a rule within a rule set: whether it is a custom rule,
/// and its name.
pub open spec fn rule_key(r: OptimizerRule) -> (bool, Seq<char>) {
    (r is Custom, rule_text(r))
}

/// The keys of the entries of a rule set.
pub open spec fn rule_keys(s: Seq<(OptimizerRule, IncludedExcluded)>) -> Seq<(bool, Seq<char>)> {
    s.map_values(|e: (OptimizerRule, IncludedExcluded)| rule_key(e.0))
}

/// The entries of a rule set as a map from rule key to setting; a later entry
/// wins over an earlier one.
pub open spec fn rule_map(s: Seq<(OptimizerRule, IncludedExcluded)>) -> Map<(bool, Seq<char>), IncludedExcluded>
    decreases s.len(),
{
    if s.len() == 0 {
        Map::empty()
    } else {
        rule_map(s.drop_last()).insert(rule_key(s.last().0), s.last().1)
    }
}

/// The names of the rules of a list with the given setting, each preceded
/// by `prefix`, in list order.
pub open spec fn prefixed_rules(s: Seq<(OptimizerRule, IncludedExcluded)>, setting: IncludedExcluded, prefix: Seq<char>) -> Seq<Seq<char>>
    decreases s.len(),
{
    if s.len() == 0 {
        Seq::empty()
    } else if s.last().1 == setting {
        prefixed_rules(s.drop_last(), setting, prefix).push(prefix + rule_text(s.last().0))
    } else {
        prefixed_rules(s.drop_last(), setting, prefix)
    }
}

/// Whether two rules are the same rule.
pub fn same_rule(a: &OptimizerRule, b: &OptimizerRule) -> (r: bool)
    ensures
        r == (rule_key(*a) == rule_key(*b)),
{
    let ca = match a { OptimizerRule::Custom(_) => true, _ => false };
    let cb = match b { OptimizerRule::Custom(_) => true, _ => false };
    ca == cb && str_eq(a.as_api_str(), b.as_api_str())
}

/// A set of optimizer rules, each included or excluded.
#[derive(Debug, PartialEq, Eq)]
pub struct OptimizerRuleSet {
    rules: Vec<(OptimizerRule, IncludedExcluded)>,
}

impl View for OptimizerRuleSet {
    type V = Map<(bool, Seq<char>), IncludedExcluded>;

    closed spec fn view(&self) -> Map<(bool, Seq<char>), IncludedExcluded> {
        rule_map(self.rules@)
    }
}

impl Clone for OptimizerRuleSet {
    fn clone(&self) -> (r: Self)
        ensures
            r@ == self@,
            r.entries() == self.entries(),
    {
        proof { use_type_invariant(self); }
        let mut rules: Vec<(OptimizerRule, IncludedExcluded)> = Vec::new();
        let n = self.rules.len();
        let mut i: usize = 0;
        while i < n
            invariant
                n == self.rules@.len(),
                i <= n,
                rules@ == self.rules@.take(i as int),
            decreases n - i,
        {
            let entry = &self.rules[i];
            rules.push((entry.0.clone(), entry.1));
            proof {
                assert(self.rules@.take(i + 1) =~= self.rules@.take(i as int).push(self.rules@[i as int]));
            }
            i = i + 1;
        }
        proof {
            assert(self.rules@.take(n as int) =~= self.rules@);
        }
        OptimizerRuleSet { rules }
    }
}

impl OptimizerRuleSet {
    /// No rule is listed twice.
    #[verifier::type_invariant]
    closed spec fn wf(&self) -> bool {
        rule_keys(self.rules@).no_duplicates()
    }

    /// The rules in the order they were first listed.
    pub closed spec fn entries(&self) -> Seq<(OptimizerRule, IncludedExcluded)> {
        self.rules@
    }

    /// An empty rule set.
    pub fn new() -> (r: Self)
        ensures
            r@ == Map::<(bool, Seq<char>), IncludedExcluded>::empty(),
    {
        let r = OptimizerRuleSet { rules: Vec::new() };
        assert(rule_keys(r.rules@) =~= Seq::<(bool, Seq<char>)>::empty());
        r
    }

    fn find(&self, rule: &OptimizerRule) -> (r: Option<usize>)
        ensures
            match r {
                Some(i) => i < self.rules@.len() && rule_key(self.rules@[i as int].0) == rule_key(*rule),
                None => !rule_keys(self.rules@).contains(rule_key(*rule)),
            },
    {
        let n = self.rules.len();
        let mut i: usize = 0;
        while i < n
            invariant
                n == self.rules@.len(),
                i <= n,
                forall|j: int| 0 <= j < i ==> rule_key(self.rules@[j].0) != rule_key(*rule),
            decreases n - i,
        {
            if same_rule(&self.rules[i].0, rule) {
                return Some(i);
            }
            i = i + 1;
        }
        proof {
            if rule_keys(self.rules@).contains(rule_key(*rule)) {
                let j = choose|j: int| 0 <= j < n && rule_keys(self.rules@)[j] == rule_key(*rule);
                assert(rule_key(self.rules@[j].0) == rule_key(*rule));
            }
        }
        None
    }

    fn set(&mut self, rule: OptimizerRule, setting: IncludedExcluded)
        ensures
            final(self)@ == old(self)@.insert(rule_key(rule), setting),
    {
        proof { use_type_invariant(&*self); }
        let ghost pre = self.rules@;
        let found = self.find(&rule);
        let mut rules: Vec<(OptimizerRule, IncludedExcluded)> = Vec::new();
        std::mem::swap(&mut rules, &mut self.rules);
        match found {
            Some(i) => {
                proof { lemma_rule_map_update(pre, i as int, rule, setting); }
                rules.set(i, (rule, setting));
                assert(rules@ =~= pre.update(i as int, (rule, setting)));
            },
            None => {
                proof { lemma_rule_map_push(pre, rule, setting); }
                rules.push((rule, setting));
            },
        }
        self.rules = rules;
    }

    /// Includes `rule`, replacing an exclusion of it.
    pub fn include_rule(&mut self, rule: OptimizerRule) -> (r: &mut Self)
        ensures
            r@ == old(self)@.insert(rule_key(rule), IncludedExcluded::Included),
            *final(self) == *final(r),
    {
        self.set(rule, IncludedExcluded::Included);
        self
    }

    /// Excludes `rule`, replacing an inclusion of it.
    pub fn exclude(&mut self, rule: OptimizerRule) -> (r: &mut Self)
        ensures
            r@ == old(self)@.insert(rule_key(rule), IncludedExcluded::Excluded),
            *final(self) == *final(r),
    {
        self.set(rule, IncludedExcluded::Excluded);
        self
    }

    /// Removes `rule` from the set.
    pub fn remove(&mut self, rule: &OptimizerRule) -> (r: &mut Self)
        ensures
            r@ == old(self)@.remove(rule_key(*rule)),
            *final(self) == *final(r),
    {
        proof { use_type_invariant(&*self); }
        let ghost pre = self.rules@;
        match self.find(rule) {
            Some(i) => {
                proof { lemma_rule_map_remove(pre, i as int); }
                let mut rules: Vec<(OptimizerRule, IncludedExcluded)> = Vec::new();
                std::mem::swap(&mut rules, &mut self.rules);
                rules.remove(i);
                assert(rules@ =~= pre.remove(i as int));
                self.rules = rules;
            },
            None => {
                proof { lemma_rule_map_absent(pre, rule_key(*rule)); }
                assert(rule_map(pre).remove(rule_key(*rule)) =~= rule_map(pre));
            },
        }
        self
    }

    /// Removes all rules.
    pub fn clear(&mut self) -> (r: &mut Self)
        ensures
            r@ == Map::<(bool, Seq<char>), IncludedExcluded>::empty(),
            *final(self) == *final(r),
    {
        let rules: Vec<(OptimizerRule, IncludedExcluded)> = Vec::new();
        assert(rule_keys(rules@) =~= Seq::<(bool, Seq<char>)>::empty());
        self.rules = rules;
        self
    }

    /// Whether `rule` is included.
    pub fn includes(&self, rule: &OptimizerRule) -> (r: bool)
        ensures
            r == (self@.contains_key(rule_key(*rule)) && self@[rule_key(*rule)] == IncludedExcluded::Included),
    {
        match self.includes_or_excludes(rule) {
            Some(s) => *s == IncludedExcluded::Included,
            None => false,
        }
    }

    /// Whether `rule` is excluded.
    pub fn excludes(&self, rule: &OptimizerRule) -> (r: bool)
        ensures
            r == (self@.contains_key(rule_key(*rule)) && self@[rule_key(*rule)] == IncludedExcluded::Excluded),
    {
        match self.includes_or_excludes(rule) {
            Some(s) => *s == IncludedExcluded::Excluded,
            None => false,
        }
    }

    /// Whether `rule` is either included or excluded.
    pub fn contains(&self, rule: &OptimizerRule) -> (r: bool)
        ensures
            r == self@.contains_key(rule_key(*rule)),
    {
        match self.includes_or_excludes(rule) {
            Some(_) => true,
            None => false,
        }
    }

    /// Whether `rule` is included or excluded, if it is listed.
    pub fn includes_or_excludes(&self, rule: &OptimizerRule) -> (r: Option<&IncludedExcluded>)
        ensures
            match r {
                Some(s) => self@.contains_key(rule_key(*rule)) && self@[rule_key(*rule)] == *s,
                None => !self@.contains_key(rule_key(*rule)),
            },
    {
        proof { use_type_invariant(self); }
        match self.find(rule) {
            Some(i) => {
                proof { lemma_rule_map_lookup(self.rules@, i as int); }
                Some(&self.rules[i].1)
            },
            None => {
                proof { lemma_rule_map_absent(self.rules@, rule_key(*rule)); }
                None
            },
        }
    }

    /// Walks the rules in the order they were first listed: each rule of the
    /// set once, with its setting.
    pub fn iter(&self) -> (r: OptimizerRuleIter<'_>)
        ensures
            r.remaining() == self.entries(),
            rule_keys(self.entries()).no_duplicates(),
            self@ == rule_map(self.entries()),
    {
        proof { use_type_invariant(self); }
        let r = OptimizerRuleIter { rules: self.rules.as_slice(), pos: 0 };
        assert(r.remaining() =~= self.entries());
        r
    }

    /// Walks the rules in the order they were first listed, giving them up:
    /// each rule of the set once, with its setting.
    pub fn into_iter(self) -> (r: OptimizerRuleIntoIter)
        ensures
            r.remaining() == self.entries(),
            rule_keys(self.entries()).no_duplicates(),
            self@ == rule_map(self.entries()),
    {
        proof { use_type_invariant(&self); }
        let ghost s = self.rules@;
        let mut rules = self.rules;
        let n = rules.len();
        let mut rest: Vec<(OptimizerRule, IncludedExcluded)> = Vec::new();
        while rules.len() > 0
            invariant
                n == s.len(),
                rules@ == s.take(rules@.len() as int),
                rest@.len() + rules@.len() == n,
                forall|j: int| 0 <= j < rest@.len() ==> rest@[j] == s[n - 1 - j],
            decreases rules@.len(),
        {
            let e = rules.pop().unwrap();
            rest.push(e);
            assert(rules@ =~= s.take(rules@.len() as int));
        }
        assert(rest@.reverse() =~= s);
        OptimizerRuleIntoIter { rest }
    }

    /// The rules as the server expects them: every excluded rule as
    /// `-<name>`, then every included rule as `+<name>`, each group in the
    /// order the rules were first listed; one text for each rule of the set.
    pub fn to_api_list(&self) -> (r: Vec<String>)
        ensures
            r.deep_view() == prefixed_rules(self.entries(), IncludedExcluded::Excluded, "-"@)
                + prefixed_rules(self.entries(), IncludedExcluded::Included, "+"@),
            rule_keys(self.entries()).no_duplicates(),
            self@ == rule_map(self.entries()),
            r@.len() == self@.dom().len(),
    {
        proof {
            use_type_invariant(self);
            lemma_rule_map_len(self.rules@);
            lemma_prefixed_count(self.rules@, "-"@, "+"@);
        }
        let excluded = prefixed_list(&self.rules, IncludedExcluded::Excluded, "-");
        let included = prefixed_list(&self.rules, IncludedExcluded::Included, "+");
        let mut out = excluded;
        let mut rest = included;
        let ghost a = out.deep_view();
        let ghost b = rest.deep_view();
        out.append(&mut rest);
        assert(out.deep_view() =~= a + b);
        out
    }
}

fn prefixed_list(rules: &Vec<(OptimizerRule, IncludedExcluded)>, setting: IncludedExcluded, prefix: &str) -> (r: Vec<String>)
    ensures
        r.deep_view() == prefixed_rules(rules@, setting, prefix@),
{
    let n = rules.len();
    let mut out: Vec<String> = Vec::new();
    let mut i: usize = 0;
    while i < n
        invariant
            n == rules@.len(),
            i <= n,
            out.deep_view() == prefixed_rules(rules@.take(i as int), setting, prefix@),
        decreases n - i,
    {
        let ghost t = rules@.take(i + 1);
        assert(t.drop_last() =~= rules@.take(i as int));
        if rules[i].1 == setting {
            let mut text = prefix.to_owned();
            text.append(rules[i].0.as_api_str());
            out.push(text);
            assert(out.deep_view() =~= prefixed_rules(rules@.take(i as int), setting, prefix@).push(prefix@ + rule_text(rules@[i as int].0)));
        }
        i = i + 1;
    }
    assert(rules@.take(n as int) =~= rules@);
    out
}

proof fn lemma_rule_map_len(s: Seq<(OptimizerRule, IncludedExcluded)>)
    requires
        rule_keys(s).no_duplicates(),
    ensures
        rule_map(s).dom().finite(),
        rule_map(s).dom().len() == s.len(),
    decreases s.len(),
{
    if s.len() == 0 {
        assert(rule_map(s).dom() =~= Set::<(bool, Seq<char>)>::empty());
    } else {
        let t = s.drop_last();
        let k = rule_key(s.last().0);
        assert(rule_keys(t) =~= rule_keys(s).drop_last());
        assert(rule_keys(s)[s.len() - 1] == k);
        assert forall|a: int, b: int| 0 <= a < b < rule_keys(t).len()
            implies rule_keys(t)[a] != rule_keys(t)[b] by {
            assert(rule_keys(t)[a] == rule_keys(s)[a]);
            assert(rule_keys(t)[b] == rule_keys(s)[b]);
        }
        if rule_keys(t).contains(k) {
            let j = choose|j: int| 0 <= j < rule_keys(t).len() && rule_keys(t)[j] == k;
            assert(rule_keys(s)[j] == k);
        }
        lemma_rule_map_len(t);
        lemma_rule_map_absent(t, k);
        assert(rule_map(s).dom() =~= rule_map(t).dom().insert(k));
    }
}

proof fn lemma_prefixed_count(s: Seq<(OptimizerRule, IncludedExcluded)>, minus: Seq<char>, plus: Seq<char>)
    ensures
        prefixed_rules(s, IncludedExcluded::Excluded, minus).len()
            + prefixed_rules(s, IncludedExcluded::Included, plus).len() == s.len(),
    decreases s.len(),
{
    if s.len() > 0 {
        lemma_prefixed_count(s.drop_last(), minus, plus);
    }
}

proof fn lemma_rule_map_absent(s: Seq<(OptimizerRule, IncludedExcluded)>, k: (bool, Seq<char>))
    requires
        !rule_keys(s).contains(k),
    ensures
        !rule_map(s).contains_key(k),
    decreases s.len(),
{
    if s.len() > 0 {
        assert(rule_keys(s.drop_last()) =~= rule_keys(s).drop_last());
        assert(rule_keys(s)[s.len() - 1] == rule_key(s.last().0));
        if rule_keys(s.drop_last()).contains(k) {
            let j = choose|j: int| 0 <= j < s.len() - 1 && rule_keys(s.drop_last())[j] == k;
            assert(rule_keys(s)[j] == k);
        }
        lemma_rule_map_absent(s.drop_last(), k);
    }
}

proof fn lemma_rule_map_lookup(s: Seq<(OptimizerRule, IncludedExcluded)>, i: int)
    requires
        0 <= i < s.len(),
        rule_keys(s).no_duplicates(),
    ensures
        rule_map(s).contains_key(rule_key(s[i].0)),
        rule_map(s)[rule_key(s[i].0)] == s[i].1,
    decreases s.len(),
{
    let t = s.drop_last();
    assert(rule_keys(t) =~= rule_keys(s).drop_last());
    if i < s.len() - 1 {
        assert(rule_keys(s)[i] == rule_key(s[i].0));
        assert(rule_keys(s)[s.len() - 1] == rule_key(s.last().0));
        assert(t[i] == s[i]);
        lemma_rule_map_lookup(t, i);
    }
}

proof fn lemma_rule_map_push(s: Seq<(OptimizerRule, IncludedExcluded)>, rule: OptimizerRule, v: IncludedExcluded)
    requires
        rule_keys(s).no_duplicates(),
        !rule_keys(s).contains(rule_key(rule)),
    ensures
        rule_keys(s.push((rule, v))).no_duplicates(),
        rule_map(s.push((rule, v))) == rule_map(s).insert(rule_key(rule), v),
{
    let t = s.push((rule, v));
    assert(t.drop_last() =~= s);
    assert(rule_keys(t) =~= rule_keys(s).push(rule_key(rule)));
    assert forall|a: int, b: int| 0 <= a < b < rule_keys(t).len()
        implies rule_keys(t)[a] != rule_keys(t)[b] by {
        assert(rule_keys(s)[a] == rule_keys(t)[a]);
        if b < s.len() {
            assert(rule_keys(s)[b] == rule_keys(t)[b]);
        }
    }
}

proof fn lemma_rule_map_update(s: Seq<(OptimizerRule, IncludedExcluded)>, i: int, rule: OptimizerRule, v: IncludedExcluded)
    requires
        0 <= i < s.len(),
        rule_key(s[i].0) == rule_key(rule),
        rule_keys(s).no_duplicates(),
    ensures
        rule_keys(s.update(i, (rule, v))) == rule_keys(s),
        rule_map(s.update(i, (rule, v))) == rule_map(s).insert(rule_key(rule), v),
    decreases s.len(),
{
    let u = s.update(i, (rule, v));
    assert(rule_keys(u) =~= rule_keys(s));
    let t = s.drop_last();
    assert(rule_keys(t) =~= rule_keys(s).drop_last());
    if i == s.len() - 1 {
        assert(u.drop_last() =~= t);
        assert(rule_map(u) =~= rule_map(s).insert(rule_key(rule), v));
    } else {
        assert(u.drop_last() =~= t.update(i, (rule, v)));
        assert(rule_keys(s)[i] == rule_key(s[i].0));
        assert(rule_keys(s)[s.len() - 1] == rule_key(s.last().0));
        lemma_rule_map_update(t, i, rule, v);
        assert(rule_map(u) =~= rule_map(s).insert(rule_key(rule), v));
    }
}

proof fn lemma_rule_map_remove(s: Seq<(OptimizerRule, IncludedExcluded)>, i: int)
    requires
        0 <= i < s.len(),
        rule_keys(s).no_duplicates(),
    ensures
        rule_keys(s.remove(i)).no_duplicates(),
        rule_map(s.remove(i)) == rule_map(s).remove(rule_key(s[i].0)),
    decreases s.len(),
{
    let u = s.remove(i);
    let k = rule_key(s[i].0);
    assert(rule_keys(u) =~= rule_keys(s).remove(i));
    assert forall|a: int, b: int| 0 <= a < b < rule_keys(u).len()
        implies rule_keys(u)[a] != rule_keys(u)[b] by {
        let a2 = if a < i { a } else { a + 1 };
        let b2 = if b < i { b } else { b + 1 };
        assert(rule_keys(u)[a] == rule_keys(s)[a2]);
        assert(rule_keys(u)[b] == rule_keys(s)[b2]);
    }
    let t = s.drop_last();
    assert(rule_keys(t) =~= rule_keys(s).drop_last());
    if i == s.len() - 1 {
        assert(u =~= t);
        assert forall|j: int| 0 <= j < t.len() implies rule_keys(t)[j] != k by {
            assert(rule_keys(s)[j] == rule_keys(t)[j]);
            assert(rule_keys(s)[i] == k);
        }
        lemma_rule_map_absent(t, k);
        assert(rule_map(u) =~= rule_map(s).remove(k));
    } else {
        assert(u.drop_last() =~= t.remove(i));
        assert(u.last() == s.last());
        assert(rule_keys(s)[i] == k);
        assert(rule_keys(s)[s.len() - 1] == rule_key(s.last().0));
        assert(t[i] == s[i]);
        lemma_rule_map_remove(t, i);
        assert(rule_map(u) =~= rule_map(s).remove(k));
    }
}

/// Including a rule makes the set include it and not exclude it, and leaves
/// every other rule as it was.
pub proof fn lemma_include_sets_rule(set: Map<(bool, Seq<char>), IncludedExcluded>, rule: OptimizerRule, other: OptimizerRule)
    requires
        rule_key(other) != rule_key(rule),
    ensures
        set.insert(rule_key(rule), IncludedExcluded::Included)[rule_key(rule)] == IncludedExcluded::Included,
        set.insert(rule_key(rule), IncludedExcluded::Included).contains_key(rule_key(other)) == set.contains_key(rule_key(other)),
        set.insert(rule_key(rule), IncludedExcluded::Included)[rule_key(other)] == set[rule_key(other)],
{
}

/// Excluding a rule makes the set exclude it and not include it, and leaves
/// every other rule as it was.
pub proof fn lemma_exclude_sets_rule(set: Map<(bool, Seq<char>), IncludedExcluded>, rule: OptimizerRule, other: OptimizerRule)
    requires
        rule_key(other) != rule_key(rule),
    ensures
        set.insert(rule_key(rule), IncludedExcluded::Excluded)[rule_key(rule)] == IncludedExcluded::Excluded,
        set.insert(rule_key(rule), IncludedExcluded::Excluded).contains_key(rule_key(other)) == set.contains_key(rule_key(other)),
        set.insert(rule_key(rule), IncludedExcluded::Excluded)[rule_key(other)] == set[rule_key(other)],
{
}

/// Removing a rule makes the set neither include nor exclude it, and leaves
/// every other rule as it was.
pub proof fn lemma_remove_clears_rule(set: Map<(bool, Seq<char>), IncludedExcluded>, rule: OptimizerRule, other: OptimizerRule)
    requires
        rule_key(other) != rule_key(rule),
    ensures
        !set.remove(rule_key(rule)).contains_key(rule_key(rule)),
        set.remove(rule_key(rule)).contains_key(rule_key(other)) == set.contains_key(rule_key(other)),
        set.remove(rule_key(rule))[rule_key(other)] == set[rule_key(other)],
{
}

/// Walks the rules of an `OptimizerRuleSet` in order.
#[derive(Debug)]
pub struct OptimizerRuleIter<'a> {
    rules: &'a [(OptimizerRule, IncludedExcluded)],
    pos: usize,
}

impl<'a> OptimizerRuleIter<'a> {
    /// The entries still to come.
    pub closed spec fn remaining(&self) -> Seq<(OptimizerRule, IncludedExcluded)> {
        if self.pos <= self.rules@.len() {
            self.rules@.skip(self.pos as int)
        } else {
            Seq::empty()
        }
    }

    /// The next rule and its setting, if any is left.
    pub fn next(&mut self) -> (r: Option<(&'a OptimizerRule, &'a IncludedExcluded)>)
        ensures
            old(self).remaining().len() == 0 ==> r is None && final(self).remaining() == old(self).remaining(),
            old(self).remaining().len() > 0 ==> (r matches Some(p)
                && (*p.0, *p.1) == old(self).remaining()[0]
                && final(self).remaining() == old(self).remaining().drop_first()),
    {
        if self.pos < self.rules.len() {
            let e = &self.rules[self.pos];
            self.pos = self.pos + 1;
            assert(self.remaining() =~= old(self).remaining().drop_first());
            Some((&e.0, &e.1))
        } else {
            None
        }
    }
}

/// Gives up the rules of an `OptimizerRuleSet` in order.
#[derive(Debug)]
pub struct OptimizerRuleIntoIter {
    rest: Vec<(OptimizerRule, IncludedExcluded)>,
}

impl OptimizerRuleIntoIter {
    /// The entries still to come.
    pub closed spec fn remaining(&self) -> Seq<(OptimizerRule, IncludedExcluded)> {
        self.rest@.reverse()
    }

    /// The next rule and its setting, if any is left.
    pub fn next(&mut self) -> (r: Option<(OptimizerRule, IncludedExcluded)>)
        ensures
            old(self).remaining().len() == 0 ==> r is None && final(self).remaining() == old(self).remaining(),
            old(self).remaining().len() > 0 ==> (r == Some(old(self).remaining()[0])
                && final(self).remaining() == old(self).remaining().drop_first()),
    {
        let r = self.rest.pop();
        proof {
            if r is Some {
                assert(self.remaining() =~= old(self).remaining().drop_first());
            }
        }
        r
    }

    /// The number of entries still to come.
    pub fn len(&self) -> (r: usize)
        ensures
            r == self.remaining().len(),
    {
        self.rest.len()
    }
}

/// The identifier of a node of a parsed query.
#[derive(Clone, Copy, Debug, PartialEq, Eq, Hash, PartialOrd, Ord, Structural)]
pub struct AstNodeId(pub i64);

/// The identifier of a node of an execution plan.
#[derive(Clone, Copy, Debug, PartialEq, Eq, Hash, PartialOrd, Ord, Structural)]
pub struct ExecutionNodeId(pub i64);

/// The identifier of a variable of an execution plan.
#[derive(Clone, Copy, Debug, PartialEq, Eq, Hash, PartialOrd, Ord, Structural)]
pub struct ExecutionVariableId(pub i64);

/// The identifier of an expression of an execution plan.
#[derive(Clone, Copy, Debug, PartialEq, Eq, Hash, PartialOrd, Ord, Structural)]
pub struct ExecutionExpressionId(pub i64);

/// A variable of an execution plan.
#[derive(Clone, Debug, PartialEq, Eq)]
pub struct ExecutionVariable {
    id: ExecutionVariableId,
    name: String,
}

/// The content of a `ExecutionVariable`.
pub struct ExecutionVariableView {
    pub id: ExecutionVariableId,
    pub name: Seq<char>,
}

impl View for ExecutionVariable {
    type V = ExecutionVariableView;

    closed spec fn view(&self) -> ExecutionVariableView {
        ExecutionVariableView {
            id: self.id,
            name: self.name@,
        }
    }
}

impl ExecutionVariable {
    pub fn new<N: IntoText>(id: ExecutionVariableId, name: N) -> (r: Self)
        ensures
            r@ == (ExecutionVariableView { id, name: name.text_view() }),
    {
        ExecutionVariable { id, name: name.into_text() }
    }

    pub fn id(&self) -> (r: ExecutionVariableId)
        ensures
            r == self@.id,
    {
        self.id
    }

    pub fn name(&self) -> (r: &str)
        ensures
            r@ == self@.name,
    {
        self.name.as_str()
    }
}

/// A collection used by an execution plan.
#[derive(Clone, Debug, PartialEq, Eq)]
pub struct ExecutionCollection {
    kind: String,
    name: String,
}

/// The content of a `ExecutionCollection`.
pub struct ExecutionCollectionView {
    pub kind: Seq<char>,
    pub name: Seq<char>,
}

impl View for ExecutionCollection {
    type V = ExecutionCollectionView;

    closed spec fn view(&self) -> ExecutionCollectionView {
        ExecutionCollectionView {
            kind: self.kind@,
            name: self.name@,
        }
    }
}

impl ExecutionCollection {
    pub fn new<K: IntoText, N: IntoText>(kind: K, name: N) -> (r: Self)
        ensures
            r@ == (ExecutionCollectionView { kind: kind.text_view(), name: name.text_view() }),
    {
        ExecutionCollection { kind: kind.into_text(), name: name.into_text() }
    }

    pub fn kind(&self) -> (r: &str)
        ensures
            r@ == self@.kind,
    {
        self.kind.as_str()
    }

    pub fn name(&self) -> (r: &str)
        ensures
            r@ == self@.name,
    {
        self.name.as_str()
    }
}

/// Statistics of the optimizer run that explained a query.
#[derive(Clone, Copy, Debug, PartialEq, Eq)]
pub struct ExecutionStats {
    rules_executed: u32,
    rules_skipped: u32,
    plans_created: u32,
}

/// The content of a `ExecutionStats`.
pub struct ExecutionStatsView {
    pub rules_executed: u32,
    pub rules_skipped: u32,
    pub plans_created: u32,
}

impl View for ExecutionStats {
    type V = ExecutionStatsView;

    closed spec fn view(&self) -> ExecutionStatsView {
        ExecutionStatsView {
            rules_executed: self.rules_executed,
            rules_skipped: self.rules_skipped,
            plans_created: self.plans_created,
        }
    }
}

impl ExecutionStats {
    pub fn new(rules_executed: u32, rules_skipped: u32, plans_created: u32) -> (r: Self)
        ensures
            r@ == (ExecutionStatsView { rules_executed, rules_skipped, plans_created }),
    {
        ExecutionStats { rules_executed, rules_skipped, plans_created }
    }

    pub fn rules_executed(&self) -> (r: u32)
        ensures
            r == self@.rules_executed,
    {
        self.rules_executed
    }

    pub fn rules_skipped(&self) -> (r: u32)
        ensures
            r == self@.rules_skipped,
    {
        self.rules_skipped
    }

    pub fn plans_created(&self) -> (r: u32)
        ensures
            r == self@.plans_created,
    {
        self.plans_created
    }
}

/// A query to be parsed by the server.
#[derive(Clone, Debug, PartialEq, Eq)]
pub struct NewParseQuery {
    query: String,
}

/// The content of a `NewParseQuery`.
pub struct NewParseQueryView {
    pub query: Seq<char>,
}

impl View for NewParseQuery {
    type V = NewParseQueryView;

    closed spec fn view(&self) -> NewParseQueryView {
        NewParseQueryView {
            query: self.query@,
        }
    }
}

impl NewParseQuery {
    pub fn new<Q: IntoText>(query: Q) -> (r: Self)
        ensures
            r@.query == query.text_view(),
    {
        NewParseQuery { query: query.into_text() }
    }

    pub fn query(&self) -> (r: &str)
        ensures
            r@ == self@.query,
    {
        self.query.as_str()
    }
}

/// The settings of the query optimizer.
#[derive(Clone, Debug, PartialEq, Eq)]
pub struct Optimizer {
    rules: OptimizerRuleSet,
}

/// The content of an `Optimizer`: its rules.
pub struct OptimizerView {
    pub rules: Map<(bool, Seq<char>), IncludedExcluded>,
}

impl View for Optimizer {
    type V = OptimizerView;

    closed spec fn view(&self) -> OptimizerView {
        OptimizerView { rules: self.rules@ }
    }
}

impl Optimizer {
    /// An optimizer setting without rules.
    pub fn new() -> (r: Self)
        ensures
            r@.rules == Map::<(bool, Seq<char>), IncludedExcluded>::empty(),
    {
        Optimizer { rules: OptimizerRuleSet::new() }
    }

    pub fn rules_mut(&mut self) -> (r: &mut OptimizerRuleSet)
        ensures
            r@ == old(self)@.rules,
            final(self)@ == (OptimizerView { rules: final(r)@ }),
    {
        &mut self.rules
    }

    pub fn rules(&self) -> (r: &OptimizerRuleSet)
        ensures
            r@ == self@.rules,
    {
        &self.rules
    }
}

/// Options for explaining a query.
#[derive(Clone, Debug, PartialEq, Eq)]
pub struct ExplainOptions {
    all_plans: Option<bool>,
    max_number_of_plans: Option<u32>,
    optimizer: Option<Optimizer>,
}

/// The content of `ExplainOptions`.
pub struct ExplainOptionsView {
    pub all_plans: Option<bool>,
    pub max_number_of_plans: Option<u32>,
    pub optimizer: Option<OptimizerView>,
}

impl View for ExplainOptions {
    type V = ExplainOptionsView;

    closed spec fn view(&self) -> ExplainOptionsView {
        ExplainOptionsView {
            all_plans: self.all_plans,
            max_number_of_plans: self.max_number_of_plans,
            optimizer: match self.optimizer { Some(o) => Some(o@), None => None },
        }
    }
}

impl ExplainOptions {
    /// Options that leave everything to the server's defaults.
    pub open spec fn default_view() -> ExplainOptionsView {
        ExplainOptionsView { all_plans: None, max_number_of_plans: None, optimizer: None }
    }

    fn new() -> (r: Self)
        ensures
            r@ == Self::default_view(),
    {
        ExplainOptions { all_plans: None, max_number_of_plans: None, optimizer: None }
    }

    pub fn set_all_plans<A: IntoOption<bool>>(&mut self, all_plans: A)
        ensures
            final(self)@ == (ExplainOptionsView { all_plans: all_plans.option_view(), ..old(self)@ }),
    {
        self.all_plans = all_plans.into_option();
    }

    pub fn is_all_plans(&self) -> (r: Option<bool>)
        ensures
            r == self@.all_plans,
    {
        self.all_plans
    }

    pub fn set_max_number_of_plans<M: IntoOption<u32>>(&mut self, max_number_of_plans: M)
        ensures
            final(self)@ == (ExplainOptionsView { max_number_of_plans: max_number_of_plans.option_view(), ..old(self)@ }),
    {
        self.max_number_of_plans = max_number_of_plans.into_option();
    }

    pub fn max_plans(&self) -> (r: Option<u32>)
        ensures
            r == self@.max_number_of_plans,
    {
        self.max_number_of_plans
    }

    /// The optimizer settings, created without rules when there are none
    /// yet.
    pub fn optimizer_mut(&mut self) -> (r: &mut Optimizer)
        ensures
            old(self)@.optimizer is Some ==> Some(r@) == old(self)@.optimizer,
            old(self)@.optimizer is None ==> r@.rules == Map::<(bool, Seq<char>), IncludedExcluded>::empty(),
            final(self)@ == (ExplainOptionsView { optimizer: Some(final(r)@), ..old(self)@ }),
    {
        let fresh = Optimizer::new();
        self.optimizer.get_or_insert(fresh)
    }

    /// Takes the optimizer settings out, leaving none.
    pub fn remove_optimizer(&mut self) -> (r: Option<Optimizer>)
        ensures
            match r { Some(o) => old(self)@.optimizer == Some(o@), None => old(self)@.optimizer is None },
            final(self)@ == (ExplainOptionsView { optimizer: None, ..old(self)@ }),
    {
        self.optimizer.take()
    }

    pub fn optimizer(&self) -> (r: Option<&Optimizer>)
        ensures
            match r { Some(o) => self@.optimizer == Some(o@), None => self@.optimizer is None },
    {
        self.optimizer.as_ref()
    }
}

/// A query to be explained by the server.
#[derive(Clone, Debug, PartialEq)]
pub struct NewExplainQuery {
    query: String,
    bind_vars: Vec<(String, Value)>,
    options: Option<ExplainOptions>,
}

/// The content of a `NewExplainQuery`.
pub struct NewExplainQueryView {
    pub query: Seq<char>,
    pub bind_vars: Map<Seq<char>, ValueView>,
    pub options: Option<ExplainOptionsView>,
}

impl View for NewExplainQuery {
    type V = NewExplainQueryView;

    closed spec fn view(&self) -> NewExplainQueryView {
        NewExplainQueryView {
            query: self.query@,
            bind_vars: bindings_map(bindings_view(self.bind_vars@)),
            options: match self.options { Some(o) => Some(o@), None => None },
        }
    }
}

impl NewExplainQuery {
    /// The query to be explained, with its bound parameters and no options.
    pub fn new(query: Query) -> (r: Self)
        ensures
            r@ == (NewExplainQueryView { query: query.string_view(), bind_vars: query.params_view(), options: None }),
    {
        let (query, bind_vars) = query.deconstruct();
        NewExplainQuery { query, bind_vars, options: None }
    }

    pub fn query(&self) -> (r: &str)
        ensures
            r@ == self@.query,
    {
        self.query.as_str()
    }

    /// The bound parameters, each name once.
    pub fn bind_vars(&self) -> (r: &[(String, Value)])
        ensures
            bindings_map(bindings_view(r@)) == self@.bind_vars,
    {
        self.bind_vars.as_slice()
    }

    /// The options, created with the defaults when there are none yet.
    pub fn options_mut(&mut self) -> (r: &mut ExplainOptions)
        ensures
            old(self)@.options is Some ==> Some(r@) == old(self)@.options,
            old(self)@.options is None ==> r@ == ExplainOptions::default_view(),
            final(self)@ == (NewExplainQueryView { options: Some(final(r)@), ..old(self)@ }),
    {
        let fresh = ExplainOptions::new();
        self.options.get_or_insert(fresh)
    }

    /// Takes the options out, leaving none.
    pub fn remove_options(&mut self) -> (r: Option<ExplainOptions>)
        ensures
            match r { Some(o) => old(self)@.options == Some(o@), None => old(self)@.options is None },
            final(self)@ == (NewExplainQueryView { options: None, ..old(self)@ }),
    {
        self.options.take()
    }

    pub fn options(&self) -> (r: Option<&ExplainOptions>)
        ensures
            match r { Some(o) => self@.options == Some(o@), None => self@.options is None },
    {
        self.options.as_ref()
    }
}

impl From<Query> for NewExplainQuery {
    fn from(query: Query) -> (r: Self)
        ensures
            r@ == (NewExplainQueryView { query: query.string_view(), bind_vars: query.params_view(), options: None }),
    {
        NewExplainQuery::new(query)
    }
}

impl vstd::std_specs::convert::FromSpecImpl<Query> for NewExplainQuery {
    open spec fn obeys_from_spec() -> bool {
        false
    }

    closed spec fn from_spec(v: Query) -> Self {
        arbitrary()
    }
}

impl From<Query> for NewParseQuery {
    fn from(query: Query) -> (r: Self)
        ensures
            r@.query == query.string_view(),
    {
        let (query, _) = query.deconstruct();
        NewParseQuery::new(query)
    }
}

impl vstd::std_specs::convert::FromSpecImpl<Query> for NewParseQuery {
    open spec fn obeys_from_spec() -> bool {
        false
    }

    closed spec fn from_spec(v: Query) -> Self {
        arbitrary()
    }
}

} // verus!
