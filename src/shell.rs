//! A process invocation, as a program and its arguments, and what its
//! captured output comes to.
use vstd::prelude::*;
use crate::error::{FriseError, FriseResult};
use crate::text::{decode_utf8, lines, lines_of};

verus! {

/// A program to run and its arguments, in order.
pub struct Shell {
    pub program: String,
    pub args: Vec<String>,
}

impl Shell {
    /// An invocation of `program` with no arguments.
    pub fn new(program: &str) -> (r: Shell)
        ensures
            r.program@ == program@,
            r.args@.len() == 0,
    {
        Shell { program: String::from_str(program), args: Vec::new() }
    }

    /// The same invocation with `arg` added last.
    pub fn arg(self, arg: &str) -> (r: Shell)
        ensures
            r.program == self.program,
            r.args@.len() == self.args@.len() + 1,
            forall|i: int| 0 <= i < self.args@.len() ==> r.args@[i] == self.args@[i],
            r.args@.last()@ == arg@,
    {
        let mut args = self.args;
        args.push(String::from_str(arg));
        Shell { program: self.program, args }
    }

    /// The same invocation with `arg` added last where there is one.
    pub fn option_arg(self, arg: Option<&str>) -> (r: Shell)
        ensures
            arg is None ==> r == self,
            arg is Some ==> r.program == self.program && r.args@.len() == self.args@.len() + 1
                && (forall|i: int| 0 <= i < self.args@.len() ==> r.args@[i] == self.args@[i])
                && r.args@.last()@ == arg->Some_0@,
    {
        match arg {
            Some(a) => self.arg(a),
            None => self,
        }
    }
}

/// The lines of `s`, each as a `String`'s view.
pub open spec fn lines_match(r: Seq<String>, s: Seq<char>) -> bool {
    r.len() == lines_of(s).len() && forall|i: int| 0 <= i < r.len() ==> #[trigger] r[i]@ == lines_of(s)[i]
}

/// What a finished process comes to: on failure its error output, decoded,
/// as a custom error; on success its standard output, decoded, as lines.
/// Output that is not UTF-8 gives a decoding error.
pub fn output_lines(success: bool, stdout: Vec<u8>, stderr: Vec<u8>) -> (r: FriseResult<Vec<String>>)
    ensures
        !success ==> (r is Err && (vstd::utf8::valid_utf8(stderr@) <==> r->Err_0 is Custom)
            && (vstd::utf8::valid_utf8(stderr@) ==> r->Err_0->Custom_0@ == vstd::utf8::decode_utf8(stderr@))
            && (!vstd::utf8::valid_utf8(stderr@) ==> r->Err_0 is Utf8Error)),
        success ==> (r is Ok <==> vstd::utf8::valid_utf8(stdout@)),
        success && r is Ok ==> lines_match(r->Ok_0@, vstd::utf8::decode_utf8(stdout@)),
        success && r is Err ==> r->Err_0 is Utf8Error,
{
    if !success {
        match decode_utf8(stderr) {
            Ok(err) => Err(FriseError::Custom(err)),
            Err(e) => Err(FriseError::from_utf8_error(e)),
        }
    } else {
        match decode_utf8(stdout) {
            Ok(out) => Ok(lines(out.as_str())),
            Err(e) => Err(FriseError::from_utf8_error(e)),
        }
    }
}

} // verus!
