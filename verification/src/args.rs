//! Validation of the command-line words for the text replacement tool.

use vstd::prelude::*;

use crate::error::ErrorValue;
use crate::error::ID_VALIDATION;
use crate::error::Kind;
use crate::text::dec_str;
use crate::text::u64_string;

verus! {

/// The four words the replacement tool runs on.
#[derive(Debug)]
pub struct Arguments {
    pub target: String,
    pub replacement: String,
    pub input_filename: String,
    pub output_filename: String,
}

/// The message of the error reported for a wrong word count.
pub open spec fn wrong_count_note(n: nat) -> Seq<char> {
    "wrong number of arguments: expected 4, got "@ + dec_str(n)
}

impl Arguments {
    /// Validates and destructures the command-line words, the program name
    /// already removed: exactly four are accepted, anything else is a
    /// `Validation` error naming the count that was given.
    pub fn parse(args: &Vec<String>, capture: bool) -> (r: Result<Arguments, ErrorValue>)
        ensures
            r is Ok <==> args@.len() == 4,
            r matches Ok(a) ==> {
                &&& a.target@ == args@[0]@
                &&& a.replacement@ == args@[1]@
                &&& a.input_filename@ == args@[2]@
                &&& a.output_filename@ == args@[3]@
            },
            r matches Err(e) ==> {
                &&& e.wf()
                &&& e@.len() == 1
                &&& e@[0].kind == Kind::Validation
                &&& e@[0].type_id == ID_VALIDATION
                &&& e@[0].message == wrong_count_note(args@.len())
                &&& e@[0].context is None
                &&& (e@[0].backtrace is Some <==> capture)
            },
    {
        if args.len() != 4 {
            let mut m = String::from_str("wrong number of arguments: expected 4, got ");
            m.append(u64_string(args.len() as u64).as_str());
            proof {
                reveal_strlit("wrong number of arguments: expected 4, got ");
                assert(m@ == wrong_count_note(args@.len()));
            }
            return Err(ErrorValue::new(Kind::Validation, m, None, capture));
        }
        Ok(
            Arguments {
                target: args[0].clone(),
                replacement: args[1].clone(),
                input_filename: args[2].clone(),
                output_filename: args[3].clone(),
            },
        )
    }
}

} // verus!
