//! Configuration lookup over an injected argument list: a value is the
//! word that follows its `--name` flag.

use vstd::prelude::*;
use crate::bytes::{bytes_eq, extend_bytes, seq_views};

verus! {

/// The flag that names a configuration option: `--` before the name.
pub open spec fn spec_flag_of(name: Seq<u8>) -> Seq<u8> {
    seq![45u8, 45u8] + name
}

/// The value following the first copy of `flag` in `args`, if any.
pub open spec fn spec_get_arg(args: Seq<Seq<u8>>, flag: Seq<u8>) -> Option<Seq<u8>>
    decreases args.len(),
{
    if args.len() < 2 {
        None
    } else if args[0] == flag {
        Some(args[1])
    } else {
        spec_get_arg(args.drop_first(), flag)
    }
}

/// The word that follows `--config` in the argument list, if any.
pub fn get_arg(args: &Vec<Vec<u8>>, config: &[u8]) -> (r: Option<Vec<u8>>)
    ensures
        match r {
            Some(v) => spec_get_arg(seq_views(args@), spec_flag_of(config@)) == Some(v@),
            None => spec_get_arg(seq_views(args@), spec_flag_of(config@)) is None,
        },
{
    let mut flag: Vec<u8> = Vec::new();
    flag.push(45);
    flag.push(45);
    extend_bytes(&mut flag, config);
    proof {
        assert(flag@ =~= spec_flag_of(config@));
    }
    let ghost all = seq_views(args@);
    if args.len() == 0 {
        return None;
    }
    let last = args.len() - 1;
    let mut i: usize = 0;
    proof {
        assert(all.skip(0) =~= all);
    }
    while i < last
        invariant
            i <= last,
            last == args@.len() - 1,
            all == seq_views(args@),
            flag@ == spec_flag_of(config@),
            spec_get_arg(all, flag@) == spec_get_arg(all.skip(i as int), flag@),
        decreases args@.len() - i,
    {
        proof {
            assert(all.skip(i as int)[0] == args@[i as int]@);
            assert(all.skip(i as int)[1] == args@[i + 1]@);
            assert(all.skip(i as int).drop_first() =~= all.skip(i + 1));
        }
        if bytes_eq(args[i].as_slice(), flag.as_slice()) {
            return Some(vstd::slice::slice_to_vec(args[i + 1].as_slice()));
        }
        i += 1;
    }
    proof {
        assert(all.skip(i as int).len() < 2);
    }
    None
}

/// Look a configuration option up in the injected argument list.
pub fn get_config(args: &Vec<Vec<u8>>, config: &[u8]) -> (r: Option<Vec<u8>>)
    ensures
        match r {
            Some(v) => spec_get_arg(seq_views(args@), spec_flag_of(config@)) == Some(v@),
            None => spec_get_arg(seq_views(args@), spec_flag_of(config@)) is None,
        },
{
    get_arg(args, config)
}

} // verus!
