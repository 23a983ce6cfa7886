use vstd::prelude::*;

verus! {

/// The mathematical content of a [`Violation`]: its three texts.
pub struct ViolationView {
    pub operation: Seq<char>,
    pub problem: Seq<char>,
    pub safe_alternative: Seq<char>,
}

/// One finding of a check: a stable category label, a risk explanation and a
/// remediation.
#[derive(Debug, Clone)]
pub struct Violation {
    pub operation: String,
    pub problem: String,
    pub safe_alternative: String,
}

impl View for Violation {
    type V = ViolationView;

    open spec fn view(&self) -> ViolationView {
        ViolationView {
            operation: self.operation@,
            problem: self.problem@,
            safe_alternative: self.safe_alternative@,
        }
    }
}

/// The violation whose three texts are the given ones.
pub open spec fn violation_of(
    operation: Seq<char>,
    problem: Seq<char>,
    safe_alternative: Seq<char>,
) -> ViolationView {
    ViolationView { operation, problem, safe_alternative }
}

/// Every text of the violation is non-empty.
pub open spec fn well_formed_violation(v: ViolationView) -> bool {
    v.operation.len() > 0 && v.problem.len() > 0 && v.safe_alternative.len() > 0
}

/// The views of a sequence of violations.
pub open spec fn views(vs: Seq<Violation>) -> Seq<ViolationView> {
    vs.map_values(|v: Violation| v@)
}

impl Violation {
    /// The violation with the given texts.
    pub fn new(operation: String, problem: String, safe_alternative: String) -> (r: Violation)
        ensures
            r@ == violation_of(operation@, problem@, safe_alternative@),
    {
        Violation { operation, problem, safe_alternative }
    }
}

} // verus!
