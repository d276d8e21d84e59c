//! The session handle: the one owner of a loaded model's native context.
use vstd::prelude::*;
use vstd::string::StringSliceAdditionalSpecFns;
use crate::error::{Error, decimal, push_decimal, status_error, status_msg};

verus! {

/// Message for a model path that the native string encoding cannot carry.
pub open spec fn bad_path_msg(pos: int) -> Seq<char> {
    "Invalid model path: nul byte found in provided data at position: "@ + decimal(pos)
}

/// The operation named in a failed model load.
pub open spec fn init_op() -> Seq<char> {
    "rknn_init failed."@
}

/// A loaded model. The context is nonzero until it is released, and it is
/// released at most once.
#[derive(Debug)]
pub struct Rknn {
    context: u64,
}

impl View for Rknn {
    type V = u64;

    closed spec fn view(&self) -> u64 {
        self.context
    }
}

/// `i` is the first zero of `b`.
pub open spec fn is_first_nul(b: Seq<u8>, i: int) -> bool {
    0 <= i < b.len() && b[i] == 0 && forall|j: int| 0 <= j < i ==> b[j] != 0
}

impl Rknn {
    /// The model path as the native loader takes it: its bytes and a
    /// terminating zero. A path with a zero byte of its own cannot be
    /// carried and is refused, naming the position of that byte.
    pub fn model_path_bytes(path: &str) -> (r: Result<Vec<u8>, Error>)
        ensures
            r is Ok <==> forall|i: int| 0 <= i < path.spec_bytes().len() ==> path.spec_bytes()[i] != 0,
            r is Ok ==> r->Ok_0@ == path.spec_bytes().push(0),
            r is Err ==> exists|i: int| is_first_nul(path.spec_bytes(), i) && r->Err_0.msg()
                == bad_path_msg(i),
    {
        let b = path.as_bytes();
        let mut out: Vec<u8> = Vec::new();
        let mut i: usize = 0;
        while i < b.len()
            invariant
                b@ == path.spec_bytes(),
                i <= b@.len(),
                out@ == b@.take(i as int),
                forall|j: int| 0 <= j < i ==> b@[j] != 0,
            decreases b@.len() - i,
        {
            if b[i] == 0 {
                let mut s = String::from_str(
                    "Invalid model path: nul byte found in provided data at position: ",
                );
                push_decimal(&mut s, i as i128);
                let e = Error(s);
                assert(is_first_nul(path.spec_bytes(), i as int) && e.msg() == bad_path_msg(
                    i as int,
                ));
                return Err(e);
            }
            out.push(b[i]);
            i = i + 1;
            assert(out@ =~= b@.take(i as int));
        }
        out.push(0);
        assert(out@ =~= b@.push(0));
        Ok(out)
    }

    /// Takes charge of the context that the native loader produced with
    /// status `status`; a nonzero status is a failure carrying that code.
    pub fn from_init(status: i32, context: u64) -> (r: Result<Rknn, Error>)
        ensures
            r is Ok <==> status == 0,
            r is Ok ==> r->Ok_0@ == context,
            r is Err ==> r->Err_0.msg() == status_msg(init_op(), status as int),
    {
        if status != 0 {
            return Err(status_error("rknn_init failed.", status));
        }
        Ok(Rknn { context })
    }

    /// The native context, while the session holds one (zero after release).
    pub fn context(&self) -> (r: u64)
        ensures
            r == self@,
    {
        self.context
    }

    /// Gives up the context: a nonzero context is handed back once for the
    /// one native destroy call, and the session holds zero afterwards, so a
    /// second call hands back nothing.
    pub fn release(&mut self) -> (r: Option<u64>)
        ensures
            old(self)@ != 0 ==> r == Some(old(self)@),
            old(self)@ == 0 ==> r is None,
            final(self)@ == 0,
    {
        if self.context == 0 {
            return Option::None;
        }
        let c = self.context;
        self.context = 0;
        Some(c)
    }
}

} // verus!
