//! The decisions of the JavaScript evaluator: which evaluations are
//! answered locally, which navigations an answer triggers, and the ids of
//! evaluations forwarded to the engine.  Sending messages and calling the
//! callers back is left to the embedder.
use crate::bridge::{envelope, json_of, JSValue, Json, SoliloquyBridgeMutation, SoliloquyBridgeResult};
use crate::bridge::{BridgeState, WebViewId};
use crate::script::{
    dispatch_spec, maybe_evaluate_with_mutations, navigations, DispatchStep, Effect,
    SoliloquyJavascriptBackend, SoliloquyJavascriptEvaluation,
};
use crate::text::trim_spec;
use crate::urls::{url_parse_error, url_serialization, ParsedUrl};
use std::collections::HashSet;
use vstd::prelude::*;

verus! {

broadcast use vstd::std_specs::hash::group_hash_axioms;

/// The URLs to load for the navigations `urls` asks for, in order, up to
/// the first that does not parse; and whether one did not.
pub open spec fn navigation_plan(urls: Seq<Seq<char>>) -> (Seq<Seq<char>>, bool)
    decreases urls.len(),
{
    if urls.len() == 0 {
        (Seq::empty(), false)
    } else if url_parse_error(urls[0]) is Some {
        (Seq::empty(), true)
    } else {
        let (rest, failed) = navigation_plan(urls.drop_first());
        (seq![url_serialization(urls[0])] + rest, failed)
    }
}

/// The message a locally answered evaluation gets when one of its
/// navigations cannot be parsed.
pub open spec fn invalid_navigation_message() -> Seq<char> {
    "invalid location.href"@
}

/// What to do for a locally answered evaluation's navigations: the URLs to
/// load, in order, and whether the evaluation must be answered with the
/// invalid-location error instead of its own result.
pub struct NavigationPlan {
    pub loads: Vec<String>,
    pub failed: bool,
}

/// The loads for `mutations`: each navigation's URL as parsed, stopping at
/// the first one that does not parse, which makes the plan fail.
pub fn plan_navigations(mutations: &[SoliloquyBridgeMutation]) -> (p: NavigationPlan)
    ensures
        (p.loads@.map_values(|s: String| s@), p.failed) == navigation_plan(navigations(mutations@)),
{
    let ghost urls = navigations(mutations@);
    let mut loads: Vec<String> = Vec::new();
    let mut i: usize = 0;
    proof {
        assert(urls.subrange(0, urls.len() as int) =~= urls);
        let (rest, failed) = navigation_plan(urls);
        assert(loads@.map_values(|s: String| s@) + rest =~= rest);
    }
    while i < mutations.len()
        invariant
            i <= mutations@.len(),
            urls == navigations(mutations@),
            navigation_plan(urls) == ({
                let (rest, failed) = navigation_plan(urls.subrange(i as int, urls.len() as int));
                (loads@.map_values(|s: String| s@) + rest, failed)
            }),
        decreases mutations@.len() - i,
    {
        let ghost tail = urls.subrange(i as int, urls.len() as int);
        assert(tail.drop_first() =~= urls.subrange(i + 1, urls.len() as int));
        let url = match &mutations[i] {
            SoliloquyBridgeMutation::Navigate { url } => url,
        };
        assert(tail[0] == url@);
        match ParsedUrl::parse(url.as_str()) {
            Ok(parsed) => {
                let ghost before = loads@.map_values(|s: String| s@);
                loads.push(parsed.as_str());
                proof {
                    let (rest, failed) = navigation_plan(tail.drop_first());
                    assert(loads@.map_values(|s: String| s@) =~= before.push(url_serialization(url@)));
                    assert(before + (seq![url_serialization(url@)] + rest) =~= before.push(
                        url_serialization(url@),
                    ) + rest);
                }
            },
            Err(_) => {
                proof {
                    assert(loads@.map_values(|s: String| s@) + Seq::<Seq<char>>::empty() =~= loads@.map_values(|s: String| s@));
                }
                return NavigationPlan { loads, failed: true };
            },
        }
        i = i + 1;
    }
    proof {
        assert(urls.subrange(i as int, urls.len() as int).len() == 0);
        assert(loads@.map_values(|s: String| s@) + Seq::<Seq<char>>::empty() =~= loads@.map_values(|s: String| s@));
    }
    NavigationPlan { loads, failed: false }
}

/// How a locally handled evaluation is answered: the value handed back and
/// the URLs to load first, in order.
pub struct LocalAnswer {
    pub value: JSValue,
    pub loads: Vec<String>,
}

/// The answer to a locally handled evaluation: its navigations are loaded
/// up to the first that does not parse; if one does not, the caller gets
/// the invalid-location error envelope instead of the evaluation's value.
pub fn local_answer(evaluation: SoliloquyJavascriptEvaluation) -> (a: LocalAnswer)
    ensures
        ({
            let (loads, failed) = navigation_plan(navigations(evaluation.mutations@));
            &&& a.loads@.map_values(|s: String| s@) == loads
            &&& if failed {
                json_of(a.value) == envelope("error"@, Json::Null, Json::Str(invalid_navigation_message()))
            } else {
                a.value == evaluation.result
            }
        }),
{
    let plan = plan_navigations(evaluation.mutations.as_slice());
    if plan.failed {
        let error = SoliloquyBridgeResult::error("invalid location.href".to_owned());
        LocalAnswer { value: error.into_js_value(), loads: plan.loads }
    } else {
        LocalAnswer { value: evaluation.result, loads: plan.loads }
    }
}

/// Whether `a` answers an evaluation whose effect is `effect`: the
/// effect's navigations are planned, and a failed plan turns the value into
/// the invalid-location error envelope.
pub open spec fn answers(a: LocalAnswer, effect: Effect) -> bool {
    let (loads, failed) = navigation_plan(effect.navigations);
    &&& a.loads@.map_values(|s: String| s@) == loads
    &&& if failed {
        json_of(a.value) == envelope("error"@, Json::Null, Json::Str(invalid_navigation_message()))
    } else {
        json_of(a.value) == effect.json
    }
}

/// What became of a script handed to the evaluator.
pub enum EvaluationStep {
    /// Answered by the bridge.
    Local(LocalAnswer),
    /// Left to the literal stage, as trimmed; if that stage cannot answer
    /// it, the script is forwarded with `JavaScriptEvaluator::forward`.
    Literal(String),
    /// Forwarded to the engine under this evaluation id.
    Forwarded(u64),
}

/// The evaluator's bookkeeping: the id the next forwarded evaluation gets
/// and the evaluations still waiting for the engine.
pub struct JavaScriptEvaluator {
    current_id: u64,
    pending: HashSet<u64>,
}

/// The evaluator's bookkeeping as values.
pub struct EvaluatorView {
    pub current_id: u64,
    pub pending: Set<u64>,
}

impl View for JavaScriptEvaluator {
    type V = EvaluatorView;

    closed spec fn view(&self) -> EvaluatorView {
        EvaluatorView { current_id: self.current_id, pending: self.pending@ }
    }
}

impl JavaScriptEvaluator {
    /// No evaluation forwarded yet; the first gets id 0.
    pub fn new() -> (e: JavaScriptEvaluator)
        ensures
            e@.current_id == 0,
            e@.pending == Set::<u64>::empty(),
    {
        JavaScriptEvaluator { current_id: 0, pending: HashSet::new() }
    }

    /// The id the next forwarded evaluation gets.
    pub fn current_id(&self) -> (id: u64)
        ensures
            id == self@.current_id,
    {
        self.current_id
    }

    /// Hands out the next evaluation id.
    pub fn generate_id(&mut self) -> (id: u64)
        requires
            old(self)@.current_id < u64::MAX,
        ensures
            id == old(self)@.current_id,
            final(self)@ == (EvaluatorView { current_id: (id + 1) as u64, ..old(self)@ }),
    {
        let id = self.current_id;
        self.current_id = id + 1;
        id
    }

    /// Records a forwarded evaluation and returns its id; the embedder sends
    /// the script to the engine under that id.
    pub fn forward(&mut self) -> (id: u64)
        requires
            old(self)@.current_id < u64::MAX,
        ensures
            id == old(self)@.current_id,
            final(self)@.current_id == id + 1,
            final(self)@.pending == old(self)@.pending.insert(id),
    {
        let id = self.generate_id();
        self.pending.insert(id);
        id
    }

    /// Handles `script` for webview `id`: the experimental backend's
    /// dispatcher answers it from the bridge or leaves it to the literal
    /// stage; with the default backend it is forwarded to the engine.
    pub fn evaluate(
        &mut self,
        bridge: &mut BridgeState,
        webview_id: WebViewId,
        script: &str,
        backend: SoliloquyJavascriptBackend,
    ) -> (step: EvaluationStep)
        requires
            old(self)@.current_id < u64::MAX,
        ensures
            backend == SoliloquyJavascriptBackend::Mozjs ==> step == EvaluationStep::Forwarded(
                old(self)@.current_id,
            ) && final(self)@.current_id == old(self)@.current_id + 1 && final(self)@.pending == old(
                self,
            )@.pending.insert(old(self)@.current_id) && final(bridge)@ == old(bridge)@,
            backend == SoliloquyJavascriptBackend::V8Experimental ==> final(self)@ == old(self)@
                && match dispatch_spec(old(bridge)@, webview_id, trim_spec(script@), backend) {
                Some(effect) => step matches EvaluationStep::Local(a) && answers(a, effect)
                    && final(bridge)@ == effect.state,
                None => step matches EvaluationStep::Literal(t) && t@ == trim_spec(script@)
                    && final(bridge)@ == old(bridge)@,
            },
    {
        match maybe_evaluate_with_mutations(bridge, webview_id, script, backend) {
            Some(DispatchStep::Answered(evaluation)) => EvaluationStep::Local(local_answer(evaluation)),
            Some(DispatchStep::Literal(trimmed)) => EvaluationStep::Literal(trimmed),
            None => EvaluationStep::Forwarded(self.forward()),
        }
    }

    /// Whether evaluation `id` is waiting for the engine.
    pub fn is_pending(&self, id: u64) -> (b: bool)
        ensures
            b == self@.pending.contains(id),
    {
        self.pending.contains(&id)
    }

    /// Finishes a forwarded evaluation; the embedder answers its caller.
    /// Only a pending evaluation can be finished.
    pub fn finish_evaluation(&mut self, id: u64)
        requires
            old(self)@.pending.contains(id),
        ensures
            final(self)@ == (EvaluatorView { pending: old(self)@.pending.remove(id), ..old(self)@ }),
    {
        self.pending.remove(&id);
    }
}

} // verus!
