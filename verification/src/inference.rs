//! The inference component: runs the engine with the prompt the caller
//! gives, or with the configured one.

use vstd::prelude::*;

use crate::config::Config;

verus! {

/// A step of the inference component's `compute`.
pub enum ComputeStep {
    /// Print a line to stdout.
    Print(String),
    /// Ask the config component for the configuration.
    GetConfig,
    /// Make an engine resource for the configuration.
    NewEngine,
    /// Run the engine's inference on the prompt `compute_prompt` chooses.
    Inference,
}

/// The contents of a compute step.
pub enum ComputeStepView {
    Print(Seq<char>),
    GetConfig,
    NewEngine,
    Inference,
}

impl View for ComputeStep {
    type V = ComputeStepView;

    open spec fn view(&self) -> ComputeStepView {
        match self {
            ComputeStep::Print(line) => ComputeStepView::Print(line@),
            ComputeStep::GetConfig => ComputeStepView::GetConfig,
            ComputeStep::NewEngine => ComputeStepView::NewEngine,
            ComputeStep::Inference => ComputeStepView::Inference,
        }
    }
}

/// The steps of `compute`, in order: the running line is printed before the
/// configuration is asked for.
pub fn compute_steps() -> (st: Vec<ComputeStep>)
    ensures
        st@.map_values(|s: ComputeStep| s@) == seq![
            ComputeStepView::Print("Inference Component Running inference"@),
            ComputeStepView::GetConfig,
            ComputeStepView::NewEngine,
            ComputeStepView::Inference,
        ],
{
    let mut st: Vec<ComputeStep> = Vec::new();
    st.push(ComputeStep::Print(String::from_str(running_line())));
    st.push(ComputeStep::GetConfig);
    st.push(ComputeStep::NewEngine);
    st.push(ComputeStep::Inference);
    assert(st@.map_values(|s: ComputeStep| s@) =~= seq![
        ComputeStepView::Print("Inference Component Running inference"@),
        ComputeStepView::GetConfig,
        ComputeStepView::NewEngine,
        ComputeStepView::Inference,
    ]);
    st
}

/// The line the inference component prints before it asks for the
/// configuration.
pub fn running_line() -> (line: &'static str)
    ensures
        line@ == "Inference Component Running inference"@,
{
    "Inference Component Running inference"
}

/// The prompt that the inference component runs.
pub open spec fn spec_compute_prompt(prompt: Option<Seq<char>>, config_prompt: Seq<char>) -> Seq<char> {
    match prompt {
        Some(p) => p,
        None => config_prompt,
    }
}

/// The prompt that `compute` hands to the engine: the caller's prompt when
/// one is given, else the prompt of the configuration.
pub fn compute_prompt(prompt: Option<String>, config: &Config) -> (p: String)
    ensures
        p@ == spec_compute_prompt(prompt.deep_view(), config.prompt@),
{
    match prompt {
        Some(p) => p,
        None => config.prompt.clone(),
    }
}

/// `compute` runs the caller's prompt when one is given, and the configured
/// prompt otherwise, whatever the configured prompt is.
pub proof fn lemma_compute_prompt_choice(given: Seq<char>, configured: Seq<char>)
    ensures
        spec_compute_prompt(Some(given), configured) == given,
        spec_compute_prompt(None, configured) == configured,
{
}

} // verus!
