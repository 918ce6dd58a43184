//! Validators that read-line prompts keep and run on `Enter`.
use vstd::prelude::*;

verus! {

/// A judge of the value that a read-line prompt would submit: `Ok` lets it
/// through, `Err` holds the message to show.
pub trait Validator<'a> {
    /// Whether `verdict` is a verdict that the validator gives on `value`.
    spec fn accepts(&self, value: Seq<char>, verdict: Result<(), &'a str>) -> bool;

    /// The verdict on `value`.
    fn check(&self, value: &str) -> (r: Result<(), &'a str>)
        ensures
            self.accepts(value@, r),
    ;
}

/// A validator made of a closure that takes any value.
pub struct FnValidator<'a, F: Fn(&str) -> Result<(), &'a str>> {
    f: F,
    verdicts: core::marker::PhantomData<&'a str>,
}

impl<'a, F: Fn(&str) -> Result<(), &'a str>> FnValidator<'a, F> {
    #[verifier::type_invariant]
    spec fn takes_any_value(self) -> bool {
        forall|s: &str| call_requires(self.f, (s,))
    }

    /// The closure that judges.
    pub closed spec fn callee(&self) -> F {
        self.f
    }

    /// The validator that calls `f`.
    pub fn new(f: F) -> (r: Self)
        requires
            forall|s: &str| call_requires(f, (s,)),
        ensures
            r.callee() == f,
    {
        FnValidator { f, verdicts: core::marker::PhantomData }
    }
}

impl<'a, F: Fn(&str) -> Result<(), &'a str>> Validator<'a> for FnValidator<'a, F> {
    /// A verdict of the closure on a string holding `value`.
    open spec fn accepts(&self, value: Seq<char>, verdict: Result<(), &'a str>) -> bool {
        exists|s: &str| s@ == value && call_ensures(self.callee(), (s,), verdict)
    }

    /// The verdict of the closure on `value`.
    fn check(&self, value: &str) -> (r: Result<(), &'a str>) {
        proof {
            use_type_invariant(self);
        }
        (self.f)(value)
    }
}

/// The validator type of a prompt that has none; it lets every value through.
#[derive(Clone, Copy, Debug, Default)]
pub struct NoValidator;

impl<'a> Validator<'a> for NoValidator {
    /// Every value passes.
    open spec fn accepts(&self, value: Seq<char>, verdict: Result<(), &'a str>) -> bool {
        verdict is Ok
    }

    fn check(&self, value: &str) -> (r: Result<(), &'a str>) {
        Ok(())
    }
}

} // verus!
