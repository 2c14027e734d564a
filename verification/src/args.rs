use vstd::prelude::*;

verus! {

/// A structured argument value as it arrives on the wire, reduced to the
/// shapes the tool schemas use: text, an unsigned integer, or anything else
/// (which no tool accepts).
pub enum ArgValue {
    Text(String),
    UInt(u64),
    Other,
}

/// One named field of a tool call's argument object.
pub struct Arg {
    pub name: String,
    pub value: ArgValue,
}

/// The argument object of one tool call: named fields in wire order.
pub struct Arguments {
    pub fields: Vec<Arg>,
}

/// The value of the first field named `key`, if any.
pub open spec fn lookup(fields: Seq<Arg>, key: Seq<char>) -> Option<ArgValue>
    decreases fields.len(),
{
    if fields.len() == 0 {
        None::<ArgValue>
    } else if fields[0].name@ == key {
        Some(fields[0].value)
    } else {
        lookup(fields.drop_first(), key)
    }
}

/// Character-wise string equality.
pub fn str_eq(a: &str, b: &str) -> (r: bool)
    ensures
        r == (a@ == b@),
{
    let n = a.unicode_len();
    let m = b.unicode_len();
    if n != m {
        proof {
            assert(a@ != b@) by {
                if a@ == b@ {
                    assert(a@.len() == b@.len());
                }
            }
        }
        return false;
    }
    let mut i: usize = 0;
    while i < n
        invariant
            n == a@.len(),
            n == b@.len(),
            i <= n,
            forall|j: int| 0 <= j < i ==> a@[j] == b@[j],
        decreases n - i,
    {
        let ca = a.get_char(i);
        let cb = b.get_char(i);
        if ca != cb {
            proof {
                assert(a@[i as int] != b@[i as int]);
            }
            return false;
        }
        i += 1;
    }
    proof {
        assert(a@ =~= b@);
    }
    true
}

impl Arguments {
    /// Finds the first field named `key`.
    pub fn get<'a>(&'a self, key: &str) -> (r: Option<&'a ArgValue>)
        ensures
            match r {
                Some(v) => lookup(self.fields@, key@) == Some(*v),
                None => lookup(self.fields@, key@) is None,
            },
    {
        proof {
            assert(self.fields@.skip(0) =~= self.fields@);
        }
        let mut i: usize = 0;
        while i < self.fields.len()
            invariant
                i <= self.fields@.len(),
                lookup(self.fields@, key@) == lookup(self.fields@.skip(i as int), key@),
            decreases self.fields@.len() - i,
        {
            let f = &self.fields[i];
            if str_eq(f.name.as_str(), key) {
                proof {
                    assert(self.fields@.skip(i as int)[0] == self.fields@[i as int]);
                }
                return Some(&f.value);
            }
            proof {
                assert(self.fields@.skip(i as int).drop_first() =~= self.fields@.skip(
                    i as int + 1,
                ));
                assert(self.fields@.skip(i as int)[0] == self.fields@[i as int]);
            }
            i += 1;
        }
        proof {
            assert(self.fields@.skip(i as int).len() == 0);
        }
        None
    }
}

} // verus!
