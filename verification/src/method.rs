//! Binding a typed function to the uniform calling convention: positional
//! JSON arguments in, a JSON result or an error object out.

use crate::json::{Json, JsonValue};
use crate::response::{Error, ErrorView, INVALID_PARAMS};
use vstd::prelude::*;

verus! {

/// The character for a decimal digit.
pub open spec fn digit(d: nat) -> char {
    if d == 0 {
        '0'
    } else if d == 1 {
        '1'
    } else if d == 2 {
        '2'
    } else if d == 3 {
        '3'
    } else if d == 4 {
        '4'
    } else if d == 5 {
        '5'
    } else if d == 6 {
        '6'
    } else if d == 7 {
        '7'
    } else if d == 8 {
        '8'
    } else {
        '9'
    }
}

/// A natural number in decimal, without leading zeros.
pub open spec fn decimal(n: nat) -> Seq<char>
    decreases n,
{
    if n < 10 {
        seq![digit(n)]
    } else {
        decimal(n / 10).push(digit(n % 10))
    }
}

/// The message for a call with the wrong number of arguments.
pub open spec fn arity_message(expected: nat, given: nat) -> Seq<char> {
    "expected "@ + decimal(expected) + " parameters, "@ + decimal(given) + " given"@
}

/// The error for arguments that do not fit, with the reason as its message.
pub open spec fn params_failure(message: Seq<char>) -> ErrorView {
    ErrorView { code: INVALID_PARAMS as int, message, data: None }
}

/// The error object in which a result ends, if it ends in one.
pub open spec fn refusal<T>(result: Result<T, Error>) -> Option<ErrorView> {
    match result {
        Ok(_) => None,
        Err(error) => Some(error@),
    }
}

/// The value of an outcome: a JSON result or an error object.
pub open spec fn outcome_view(outcome: Result<Json, Error>) -> Result<JsonValue, ErrorView> {
    match outcome {
        Ok(value) => Ok(value@),
        Err(error) => Err(error@),
    }
}

fn digit_text(d: usize) -> (text: &'static str)
    requires
        d < 10,
    ensures
        text@ == seq![digit(d as nat)],
{
    proof {
        reveal_strlit("0");
        reveal_strlit("1");
        reveal_strlit("2");
        reveal_strlit("3");
        reveal_strlit("4");
        reveal_strlit("5");
        reveal_strlit("6");
        reveal_strlit("7");
        reveal_strlit("8");
        reveal_strlit("9");
    }
    let text = if d == 0 {
        "0"
    } else if d == 1 {
        "1"
    } else if d == 2 {
        "2"
    } else if d == 3 {
        "3"
    } else if d == 4 {
        "4"
    } else if d == 5 {
        "5"
    } else if d == 6 {
        "6"
    } else if d == 7 {
        "7"
    } else if d == 8 {
        "8"
    } else {
        "9"
    };
    assert(text@ =~= seq![digit(d as nat)]);
    text
}

fn push_decimal(text: &mut String, n: usize)
    ensures
        final(text)@ == old(text)@ + decimal(n as nat),
    decreases n,
{
    if n >= 10 {
        push_decimal(text, n / 10);
    }
    text.append(digit_text(n % 10));
    assert(text@ =~= old(text)@ + decimal(n as nat));
}

/// Writes the message for a call with the wrong number of arguments.
pub fn arity_text(expected: usize, given: usize) -> (text: String)
    ensures
        text@ == arity_message(expected as nat, given as nat),
{
    let mut text = "expected ".to_owned();
    push_decimal(&mut text, expected);
    text.append(" parameters, ");
    push_decimal(&mut text, given);
    text.append(" given");
    text
}

/// Holds the number of arguments given against the number that the method
/// takes.
pub fn check_arity(expected: usize, given: usize) -> (checked: Result<(), Error>)
    ensures
        expected == given ==> checked is Ok,
        expected != given ==> refusal(checked) == Some(
            params_failure(arity_message(expected as nat, given as nat)),
        ),
{
    if expected == given {
        Ok(())
    } else {
        let text = arity_text(expected, given);
        Err(Error::new(INVALID_PARAMS, text.as_str(), None))
    }
}

/// Whether `decode` may be called on each argument at its position.
pub open spec fn decodable<D, F: Fn(usize, &Json) -> Result<D, String>>(
    decode: F,
    args: Seq<Json>,
) -> bool {
    forall|i: int| 0 <= i < args.len() ==> call_requires(decode, (i as usize, &#[trigger] args[i]))
}

/// Whether decoding the arguments before `upto` can have gone well, one
/// after the other, with `values` as what came out.
pub open spec fn decoded_upto<D, F: Fn(usize, &Json) -> Result<D, String>>(
    decode: F,
    args: Seq<Json>,
    values: Seq<D>,
    upto: int,
) -> bool {
    &&& values.len() == upto
    &&& forall|i: int|
        0 <= i < upto ==> call_ensures(
            decode,
            (i as usize, &args[i]),
            Ok::<D, String>(#[trigger] values[i]),
        )
}

/// Whether decoding can have stopped at the argument `at` with `message`,
/// after every argument before it went well.
pub open spec fn decoding_stopped<D, F: Fn(usize, &Json) -> Result<D, String>>(
    decode: F,
    args: Seq<Json>,
    at: int,
    message: Seq<char>,
) -> bool {
    &&& 0 <= at < args.len()
    &&& exists|values: Seq<D>| decoded_upto(decode, args, values, at)
    &&& exists|text: String|
        text@ == message && call_ensures(decode, (at as usize, &args[at]), Err::<D, String>(text))
}

/// Decodes the arguments of a call for a method that takes `arity` of them.
/// A wrong number of arguments is refused before any is decoded. Then
/// `decode` is given each position and its argument, from the first on,
/// and the first argument that it refuses ends the call with its message.
pub fn decode_params<D, F>(arity: usize, args: &Vec<Json>, decode: &F) -> (decoded: Result<
    Vec<D>,
    Error,
>) where F: Fn(usize, &Json) -> Result<D, String>
    requires
        args.len() == arity ==> decodable(*decode, args@),
    ensures
        args.len() != arity ==> refusal(decoded) == Some(
            params_failure(arity_message(arity as nat, args.len() as nat)),
        ),
        args.len() == arity ==> match decoded {
            Ok(values) => decoded_upto(*decode, args@, values@, arity as int),
            Err(error) => exists|at: int, message: Seq<char>|
                #[trigger] decoding_stopped::<D, F>(*decode, args@, at, message) && error@
                    == params_failure(message),
        },
{
    match check_arity(arity, args.len()) {
        Err(error) => {
            return Err(error);
        },
        Ok(_) => {},
    }
    let mut values: Vec<D> = Vec::new();
    let mut i: usize = 0;
    while i < arity
        invariant
            i <= arity,
            args.len() == arity,
            decodable(*decode, args@),
            decoded_upto(*decode, args@, values@, i as int),
        decreases arity - i,
    {
        match decode(i, &args[i]) {
            Ok(value) => {
                values.push(value);
            },
            Err(text) => {
                let error = Error::new(INVALID_PARAMS, text.as_str(), None);
                proof {
                    assert(decoding_stopped::<D, F>(*decode, args@, i as int, text@));
                }
                return Err(error);
            },
        }
        i = i + 1;
    }
    Ok(values)
}

/// A typed function bound to the calling convention: the number of
/// arguments it takes, the decoder of its arguments, the function itself,
/// and the encoder of its result.
pub struct Binding<F, G, H> {
    pub arity: usize,
    pub decode: F,
    pub target: G,
    pub encode: H,
}

/// Whether a call through a binding can have ended in `outcome`: the
/// arguments were refused, or they were decoded and handed to `target`,
/// whose result was encoded or whose failure was turned into an error
/// object.
pub open spec fn called<D, R, E, F, G, H>(
    arity: usize,
    args: Seq<Json>,
    decode: F,
    target: G,
    encode: H,
    outcome: Result<Json, Error>,
) -> bool where
    F: Fn(usize, &Json) -> Result<D, String>,
    G: Fn(Vec<D>) -> Result<R, E>,
    H: Fn(R) -> Json,
    Error: From<E>,
{
    if args.len() != arity {
        refusal(outcome) == Some(params_failure(arity_message(arity as nat, args.len())))
    } else {
        ||| exists|at: int, message: Seq<char>|
            #[trigger] decoding_stopped::<D, F>(decode, args, at, message) && refusal(outcome)
                == Some(params_failure(message))
        ||| exists|values: Vec<D>, returned: Result<R, E>|
            {
                &&& decoded_upto(decode, args, values@, arity as int)
                &&& #[trigger] call_ensures(target, (values,), returned)
                &&& match returned {
                    Ok(result) => match outcome {
                        Ok(json) => call_ensures(encode, (result,), json),
                        Err(_) => false,
                    },
                    Err(failure) => match outcome {
                        Ok(_) => false,
                        Err(error) => call_ensures(Error::from, (failure,), error),
                    },
                }
            }
    }
}

/// Whether the parts of a binding may be called as a call on `args` calls
/// them: the decoder on each argument, the function on what was decoded,
/// and the encoder on what the function returned.
pub open spec fn callable<D, R, E, F, G, H>(
    arity: usize,
    args: Seq<Json>,
    decode: F,
    target: G,
    encode: H,
) -> bool where
    F: Fn(usize, &Json) -> Result<D, String>,
    G: Fn(Vec<D>) -> Result<R, E>,
    H: Fn(R) -> Json,
{
    args.len() == arity ==> {
        &&& decodable(decode, args)
        &&& forall|values: Vec<D>|
            decoded_upto(decode, args, values@, arity as int) ==> call_requires(target, (values,))
        &&& forall|values: Vec<D>, result: R|
            call_ensures(target, (values,), Ok::<R, E>(result)) ==> call_requires(
                encode,
                (result,),
            )
    }
}

impl<D, R, E, F, G, H> Binding<F, G, H> where
    F: Fn(usize, &Json) -> Result<D, String>,
    G: Fn(Vec<D>) -> Result<R, E>,
    H: Fn(R) -> Json,
    Error: From<E>,
{
    /// Calls the function on the arguments of a request. The arguments are
    /// checked and decoded as [`decode_params`] does it; the function is run
    /// on what was decoded; its result is encoded, and its failure is turned
    /// into an error object.
    pub fn invoke(&self, args: &Vec<Json>) -> (outcome: Result<Json, Error>)
        requires
            callable(self.arity, args@, self.decode, self.target, self.encode),
        ensures
            called(self.arity, args@, self.decode, self.target, self.encode, outcome),
    {
        match decode_params(self.arity, args, &self.decode) {
            Err(error) => Err(error),
            Ok(values) => match (self.target)(values) {
                Ok(result) => Ok((self.encode)(result)),
                Err(failure) => Err(Error::from(failure)),
            },
        }
    }
}

/// Binds a function that takes `arity` arguments: `decode` turns the
/// argument at a position into what `target` takes there, and `encode`
/// turns what `target` returns into JSON.
pub fn rpc<D, R, E, F, G, H>(arity: usize, decode: F, target: G, encode: H) -> (binding: Binding<
    F,
    G,
    H,
>) where
    F: Fn(usize, &Json) -> Result<D, String>,
    G: Fn(Vec<D>) -> Result<R, E>,
    H: Fn(R) -> Json,
    Error: From<E>,

    ensures
        binding.arity == arity,
        binding.decode == decode,
        binding.target == target,
        binding.encode == encode,
{
    Binding { arity, decode, target, encode }
}

/// A call with as many arguments as the method takes, each of which the
/// decoder accepts, to a method that does not fail, ends in a result.
pub proof fn lemma_fitting_call_succeeds<D, R, E, F, G, H>(
    arity: usize,
    args: Seq<Json>,
    decode: F,
    target: G,
    encode: H,
    outcome: Result<Json, Error>,
) where
    F: Fn(usize, &Json) -> Result<D, String>,
    G: Fn(Vec<D>) -> Result<R, E>,
    H: Fn(R) -> Json,
    Error: From<E>,

    requires
        called(arity, args, decode, target, encode, outcome),
        args.len() == arity,
        forall|i: int, decoded: Result<D, String>|
            0 <= i < args.len() && #[trigger] call_ensures(decode, (i as usize, &args[i]), decoded)
                ==> decoded is Ok,
        forall|values: Vec<D>, returned: Result<R, E>| #[trigger]
            call_ensures(target, (values,), returned) ==> returned is Ok,
    ensures
        outcome is Ok,
{
}

} // verus!
