//! Model Lister: the serializable summary of locally available models and
//! the mapping of the server's listing outcome.

use vstd::prelude::*;

verus! {

/// A read-only summary of one locally available model: its name, its
/// modification timestamp as text, and its size in bytes.
pub struct ModelSummary {
    pub name: String,
    pub modified_at: String,
    pub size: u64,
}

/// Mathematical image of a model summary.
#[verifier::ext_equal]
pub ghost struct ModelSummaryView {
    pub name: Seq<char>,
    pub modified_at: Seq<char>,
    pub size: u64,
}

impl View for ModelSummary {
    type V = ModelSummaryView;

    open spec fn view(&self) -> ModelSummaryView {
        ModelSummaryView { name: self.name@, modified_at: self.modified_at@, size: self.size }
    }
}

impl ModelSummary {
    /// Builds a summary out of the three fields a model record carries.
    pub fn new(name: String, modified_at: String, size: u64) -> (s: Self)
        ensures
            s@ == (ModelSummaryView { name: name@, modified_at: modified_at@, size: size }),
    {
        ModelSummary { name, modified_at, size }
    }
}

/// The error text returned when the listing fails: the underlying cause,
/// prefixed.
pub open spec fn list_error_text(cause: Seq<char>) -> Seq<char> {
    "Failed to list Ollama models: "@ + cause
}

/// What the Model Lister returns for each outcome of the server's listing:
/// the summaries unchanged on success - an empty list stays an empty `Ok`,
/// never an error - and a wrapped error text on failure.
pub open spec fn listed_models(
    outcome: Result<Seq<ModelSummaryView>, Seq<char>>,
) -> Result<Seq<ModelSummaryView>, Seq<char>> {
    match outcome {
        Ok(models) => Ok(models),
        Err(cause) => Err(list_error_text(cause)),
    }
}

/// Maps the server's listing outcome to the caller's, per `listed_models`.
pub fn finish_list_models(outcome: Result<Vec<ModelSummary>, String>) -> (r: Result<
    Vec<ModelSummary>,
    String,
>)
    ensures
        (match r {
            Ok(models) => listed_models(result_view(outcome)) == Ok::<_, Seq<char>>(
                models@.map_values(|m: ModelSummary| m@),
            ),
            Err(e) => listed_models(result_view(outcome)) == Err::<Seq<ModelSummaryView>, _>(e@),
        }),
{
    match outcome {
        Ok(models) => Ok(models),
        Err(e) => Err(String::from_str("Failed to list Ollama models: ").concat(e.as_str())),
    }
}

/// The mathematical image of a listing outcome.
pub open spec fn result_view(outcome: Result<Vec<ModelSummary>, String>) -> Result<
    Seq<ModelSummaryView>,
    Seq<char>,
> {
    match outcome {
        Ok(models) => Ok(models@.map_values(|m: ModelSummary| m@)),
        Err(e) => Err(e@),
    }
}

/// A server with zero local models yields an empty sequence, not an error.
pub proof fn lemma_empty_model_list()
    ensures
        listed_models(Ok(Seq::<ModelSummaryView>::empty())) == Ok::<_, Seq<char>>(
            Seq::<ModelSummaryView>::empty(),
        ),
{
}

} // verus!
