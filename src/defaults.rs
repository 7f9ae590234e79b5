use vstd::prelude::*;
use vstd::string::StringExecFns;

verus! {

/// The model that a Qwen-style request uses when it names none.
pub fn default_qwen_model() -> (r: String)
    ensures
        r@ == "qwen3-max"@,
{
    String::from_str("qwen3-max")
}

/// The model that a thread uses when it names none.
pub fn default_model() -> (r: String)
    ensures
        r@ == "grok-3-auto"@,
{
    String::from_str("grok-3-auto")
}

} // verus!
