//! Blocks and their parents: which to ask for, and what is made of the answer.
use vstd::prelude::*;
use crate::batch::{numbers_fit, numbers_of};
use crate::error::PreflightError;

verus! {

/// The blocks to ask for: the block in full, and its parent without transactions.
pub open spec fn single_numbers(block_number: u64) -> Seq<(u64, bool)> {
    seq![(block_number, true), ((block_number - 1) as u64, false)]
}

/// The block and the parent to ask for.
pub fn block_and_parent_numbers(block_number: u64) -> (r: Vec<(u64, bool)>)
    requires
        block_number > 0,
    ensures
        r@ == single_numbers(block_number),
        r@ == seq![(block_number, true), ((block_number - 1) as u64, false)],
{
    let mut wanted: Vec<(u64, bool)> = Vec::new();
    wanted.push((block_number, true));
    wanted.push((block_number - 1, false));
    wanted
}

/// `r` can be the outcome for these blocks: the first one converted, with the second as it came.
pub open spec fn with_parent<B, R, F: Fn(&B) -> Result<R, String>>(
    blocks: Seq<B>,
    convert: F,
    r: Result<(R, B), PreflightError>,
) -> bool {
    if blocks.len() == 0 {
        r == Err::<(R, B), _>(PreflightError::NoBlockData)
    } else if blocks.len() == 1 {
        r == Err::<(R, B), _>(PreflightError::NoParentBlockData)
    } else {
        exists|c: Result<R, String>| #[trigger]
            call_ensures(convert, (&blocks[0],), c) && match c {
                Err(why) => r == Err::<(R, B), _>(PreflightError::BlockNotConverted(why)),
                Ok(block) => r == Ok::<_, PreflightError>((block, blocks[1])),
            }
    }
}

/// The block, converted, and its parent.
pub fn get_block_and_parent_data<B, R, F: Fn(&B) -> Result<R, String>>(
    blocks: Vec<B>,
    convert: &F,
) -> (r: Result<(R, B), PreflightError>)
    requires
        forall|block: B| call_requires(*convert, (&block,)),
    ensures
        with_parent(blocks@, *convert, r),
{
    let mut blocks = blocks;
    if blocks.is_empty() {
        return Err(PreflightError::NoBlockData);
    }
    if blocks.len() == 1 {
        return Err(PreflightError::NoParentBlockData);
    }
    match convert(&blocks[0]) {
        Err(why) => Err(PreflightError::BlockNotConverted(why)),
        Ok(block) => {
            let parent: B = blocks.remove(1);
            Ok((block, parent))
        },
    }
}

/// The blocks to ask for: the parent of the first one without transactions, then each block in
/// full.
pub open spec fn batch_numbers(block_numbers: Seq<u64>) -> Seq<(u64, bool)> {
    Seq::new(
        block_numbers.len() + 1,
        |i: int|
            if i == 0 {
                ((block_numbers[0] - 1) as u64, false)
            } else {
                (block_numbers[i - 1], true)
            },
    )
}

/// The blocks of a batch to ask for.
pub fn batch_blocks_and_parent_numbers(block_numbers: &Vec<u64>) -> (r: Vec<(u64, bool)>)
    requires
        block_numbers@.len() > 0,
        block_numbers@[0] > 0,
    ensures
        r@ == batch_numbers(block_numbers@),
{
    let mut wanted: Vec<(u64, bool)> = Vec::new();
    wanted.push((block_numbers[0] - 1, false));
    let mut i: usize = 0;
    while i < block_numbers.len()
        invariant
            block_numbers@.len() > 0,
            i <= block_numbers@.len(),
            wanted@.len() == i + 1,
            forall|j: int| 0 <= j <= i ==> #[trigger] wanted@[j] == batch_numbers(block_numbers@)[j],
        decreases block_numbers@.len() - i,
    {
        wanted.push((block_numbers[i], true));
        i += 1;
    }
    assert(wanted@ =~= batch_numbers(block_numbers@));
    wanted
}

/// `r` can be the outcome for a batch of `count` blocks: each block but the first converted, and
/// paired with the one before it. A block too many or too few breaks off, and so does the first
/// one that cannot be converted.
pub open spec fn with_parents<B, R, F: Fn(&B) -> Result<R, String>>(
    blocks: Seq<B>,
    count: nat,
    convert: F,
    r: Result<Vec<(R, B)>, PreflightError>,
) -> bool {
    if blocks.len() != count + 1 {
        r == Err::<Vec<(R, B)>, _>(PreflightError::BlockCountMismatch)
    } else {
        match r {
            Ok(pairs) => {
                &&& pairs@.len() == count
                &&& forall|i: int|
                    0 <= i < count ==> (#[trigger] pairs@[i]).1 == blocks[i] && call_ensures(
                        convert,
                        (&blocks[i + 1],),
                        Ok(pairs@[i].0),
                    )
            },
            Err(e) => exists|done: Seq<R>, why: String| #[trigger]
                stopped_after(blocks, count, convert, done, why) && e
                    == PreflightError::BatchBlockNotConverted(why),
        }
    }
}

/// The blocks after the first are converted to `done`, up to one that cannot be.
pub open spec fn stopped_after<B, R, F: Fn(&B) -> Result<R, String>>(
    blocks: Seq<B>,
    count: nat,
    convert: F,
    done: Seq<R>,
    why: String,
) -> bool {
    let stop = done.len() as int;
    &&& stop < count
    &&& forall|i: int|
        0 <= i < stop ==> call_ensures(convert, (&blocks[i + 1],), Ok(#[trigger] done[i]))
    &&& call_ensures(convert, (&blocks[stop + 1],), Err::<R, _>(why))
}

/// Each block of the batch, converted, and its parent.
pub fn get_batch_blocks_and_parent_data<B, R, F: Fn(&B) -> Result<R, String>>(
    blocks: Vec<B>,
    block_numbers: &Vec<u64>,
    convert: &F,
) -> (r: Result<Vec<(R, B)>, PreflightError>)
    requires
        forall|block: B| call_requires(*convert, (&block,)),
    ensures
        with_parents(blocks@, block_numbers@.len(), *convert, r),
{
    let block_count: usize = block_numbers.len();
    if blocks.is_empty() || blocks.len() - 1 != block_count {
        return Err(PreflightError::BlockCountMismatch);
    }
    let ghost given = blocks@;
    let mut converted: Vec<R> = Vec::new();
    let mut i: usize = 0;
    while i < block_count
        invariant
            forall|block: B| call_requires(*convert, (&block,)),
            i <= block_count,
            block_count == block_numbers@.len(),
            block_count + 1 == blocks@.len(),
            given == blocks@,
            converted@.len() == i,
            forall|j: int|
                0 <= j < i ==> call_ensures(
                    *convert,
                    (&given[j + 1],),
                    Ok(#[trigger] converted@[j]),
                ),
        decreases block_count - i,
    {
        match convert(&blocks[i + 1]) {
            Err(why) => {
                assert(stopped_after(given, block_count as nat, *convert, converted@, why));
                return Err(PreflightError::BatchBlockNotConverted(why));
            },
            Ok(block) => {
                converted.push(block);
            },
        }
        i += 1;
    }
    let ghost made = converted@;
    let mut pairs: Vec<(R, B)> = Vec::new();
    let mut rest = blocks;
    let mut i: usize = 0;
    while i < block_count
        invariant
            i <= block_count,
            block_count + 1 == given.len(),
            made.len() == block_count,
            converted@ == made.skip(i as int),
            rest@ == given.skip(i as int),
            pairs@.len() == i,
            forall|j: int|
                0 <= j < i ==> (#[trigger] pairs@[j]).0 == made[j] && pairs@[j].1 == given[j],
        decreases block_count - i,
    {
        let block: R = converted.remove(0);
        let parent: B = rest.remove(0);
        pairs.push((block, parent));
        proof {
            assert(made.skip(i as int).remove(0) =~= made.skip(i + 1));
            assert(given.skip(i as int).remove(0) =~= given.skip(i + 1));
        }
        i += 1;
    }
    Ok(pairs)
}

/// The two blocks whose headers are asked for: the first in full.
pub open spec fn pair_numbers(a: u64, b: u64) -> Seq<(u64, bool)> {
    seq![(a, true), (b, false)]
}

/// The first two of the headers that came back, where there are two.
pub open spec fn first_two<H>(headers: Seq<H>) -> Result<(H, H), PreflightError> {
    if headers.len() < 2 {
        Err(PreflightError::NoBlockData)
    } else {
        Ok((headers[0], headers[1]))
    }
}

/// The two blocks whose headers are asked for.
pub fn header_numbers(a: u64, b: u64) -> (r: Vec<(u64, bool)>)
    ensures
        r@ == pair_numbers(a, b),
        r@ == seq![(a, true), (b, false)],
{
    let mut wanted: Vec<(u64, bool)> = Vec::new();
    wanted.push((a, true));
    wanted.push((b, false));
    wanted
}

/// The first two of the headers that came back.
pub fn get_headers<H>(headers: Vec<H>) -> (r: Result<(H, H), PreflightError>)
    ensures
        r == first_two(headers@),
        r == if headers@.len() < 2 {
            Err(PreflightError::NoBlockData)
        } else {
            Ok((headers@[0], headers@[1]))
        },
{
    let mut headers = headers;
    if headers.len() < 2 {
        return Err(PreflightError::NoBlockData);
    }
    let a: H = headers.remove(0);
    let b: H = headers.remove(0);
    Ok((a, b))
}

/// Converting is a function: a block is converted in one way.
pub open spec fn converting_is_a_function<B, R, F: Fn(&B) -> Result<R, String>>(
    convert: F,
) -> bool {
    forall|block: B, x: Result<R, String>, y: Result<R, String>|
        #[trigger] call_ensures(convert, (&block,), x) && #[trigger] call_ensures(
            convert,
            (&block,),
            y,
        ) ==> x == y
}

/// A batch of one block is that block with its parent: where `served` is what each question for a
/// block is answered with, and converting is a function, both give the same pair or fail for the
/// same reason.
pub proof fn law_batch_of_one_block_is_the_single_block<B, R, F: Fn(&B) -> Result<R, String>>(
    block_number: u64,
    served: spec_fn((u64, bool)) -> B,
    convert: F,
    single: Result<(R, B), PreflightError>,
    batch: Result<Vec<(R, B)>, PreflightError>,
)
    requires
        block_number > 0,
        converting_is_a_function(convert),
        with_parent(single_numbers(block_number).map_values(served), convert, single),
        with_parents(
            batch_numbers(seq![block_number]).map_values(served),
            1,
            convert,
            batch,
        ),
    ensures
        match single {
            Ok(pair) => batch is Ok && batch->Ok_0@ == seq![pair],
            Err(PreflightError::BlockNotConverted(why)) => batch == Err::<Vec<(R, B)>, _>(
                PreflightError::BatchBlockNotConverted(why),
            ),
            Err(_) => false,
        },
{
    let one = single_numbers(block_number).map_values(served);
    let all = batch_numbers(seq![block_number]).map_values(served);
    assert(one.len() == 2 && all.len() == 2);
    assert(one[0] == all[1] && one[1] == all[0]);
    match batch {
        Ok(pairs) => {
            let block = pairs@[0];
            assert(call_ensures(convert, (&all[1],), Ok(block.0)));
            assert(pairs@ =~= seq![(block.0, block.1)]);
        },
        Err(e) => {
            let (done, why) = choose|done: Seq<R>, why: String| #[trigger]
                stopped_after(all, 1, convert, done, why) && e
                    == PreflightError::BatchBlockNotConverted(why);
            assert(call_ensures(convert, (&all[1],), Err::<R, _>(why)));
        },
    }
}

/// The blocks that are asked for with a batch follow one another, so that each block of the batch
/// is paired with its parent.
pub proof fn law_batch_blocks_follow_their_parents(last_block_id: u64, block_count: nat, i: int)
    requires
        numbers_fit(last_block_id, block_count),
        last_block_id >= block_count,
        0 <= i < block_count,
    ensures
        batch_numbers(numbers_of(last_block_id, block_count)).len() == block_count + 1,
        batch_numbers(numbers_of(last_block_id, block_count))[i].0 + 1 == batch_numbers(
            numbers_of(last_block_id, block_count),
        )[i + 1].0,
        batch_numbers(numbers_of(last_block_id, block_count))[i + 1] == (
            numbers_of(last_block_id, block_count)[i],
            true,
        ),
{
}

/// A block is asked for in full, and its parent, one number before it, without transactions.
pub proof fn law_block_is_asked_for_with_its_parent(block_number: u64)
    requires
        block_number > 0,
    ensures
        single_numbers(block_number).len() == 2,
        single_numbers(block_number)[0] == (block_number, true),
        single_numbers(block_number)[1].0 + 1 == block_number,
        !single_numbers(block_number)[1].1,
{
}

/// With a batch, each block is asked for in full, in the order of the numbers, after the parent of
/// the first, which is asked for without transactions.
pub proof fn law_batch_is_asked_for_after_its_parent(block_numbers: Seq<u64>, i: int)
    requires
        0 <= i < block_numbers.len(),
        block_numbers[0] > 0,
    ensures
        batch_numbers(block_numbers).len() == block_numbers.len() + 1,
        batch_numbers(block_numbers)[0].0 + 1 == block_numbers[0],
        !batch_numbers(block_numbers)[0].1,
        batch_numbers(block_numbers)[i + 1] == (block_numbers[i], true),
{
}

/// A block that is handed over is the first of those served, converted, and its parent is the
/// second, as it was served. It is missing only where fewer than two came or it cannot be
/// converted, and each has a failure of its own.
pub proof fn law_block_comes_with_the_parent_that_was_served<B, R, F: Fn(&B) -> Result<R, String>>(
    blocks: Seq<B>,
    convert: F,
    r: Result<(R, B), PreflightError>,
)
    requires
        with_parent(blocks, convert, r),
    ensures
        blocks.len() == 0 <==> r == Err::<(R, B), _>(PreflightError::NoBlockData),
        blocks.len() == 1 <==> r == Err::<(R, B), _>(PreflightError::NoParentBlockData),
        match r {
            Ok(pair) => blocks.len() >= 2 && call_ensures(convert, (&blocks[0],), Ok(pair.0))
                && pair.1 == blocks[1],
            Err(PreflightError::NoBlockData) => true,
            Err(PreflightError::NoParentBlockData) => true,
            Err(PreflightError::BlockNotConverted(why)) => blocks.len() >= 2 && call_ensures(
                convert,
                (&blocks[0],),
                Err::<R, _>(why),
            ),
            Err(_) => false,
        },
{
}

/// In a batch of any size, each block that is handed over is paired with the block one before it
/// among those served: where `number_of` tells the number of a block as served, and each question
/// is answered with the block of the number that was asked for, the parent in every pair has a
/// number one less than its block, and the block is the one of its place in the batch, converted.
pub proof fn law_each_batch_block_is_paired_with_its_parent<B, R, F: Fn(&B) -> Result<R, String>>(
    block_numbers: Seq<u64>,
    served: spec_fn((u64, bool)) -> B,
    number_of: spec_fn(B) -> u64,
    convert: F,
    pairs: Vec<(R, B)>,
    i: int,
)
    requires
        block_numbers.len() > 0,
        block_numbers[0] > 0,
        forall|j: int|
            0 < j < block_numbers.len() ==> #[trigger] block_numbers[j] == block_numbers[0] + j,
        forall|number: u64, full: bool| number_of(#[trigger] served((number, full))) == number,
        with_parents(
            batch_numbers(block_numbers).map_values(served),
            block_numbers.len(),
            convert,
            Ok(pairs),
        ),
        0 <= i < block_numbers.len(),
    ensures
        pairs@.len() == block_numbers.len(),
        number_of(pairs@[i].1) + 1 == block_numbers[i],
        call_ensures(convert, (&served((block_numbers[i], true)),), Ok(pairs@[i].0)),
        i == 0 ==> pairs@[i].1 == served(((block_numbers[0] - 1) as u64, false)),
        i > 0 ==> pairs@[i].1 == served((block_numbers[i - 1], true)),
{
    let blocks = batch_numbers(block_numbers).map_values(served);
    assert(blocks.len() == block_numbers.len() + 1);
    assert(blocks[i + 1] == served((block_numbers[i], true)));
    if i == 0 {
        assert(blocks[0] == served(((block_numbers[0] - 1) as u64, false)));
    } else {
        assert(blocks[i] == served((block_numbers[i - 1], true)));
    }
    assert(pairs@[i].1 == blocks[i]);
}

/// Whatever blocks were served for a batch, each but the first is handed over, converted, in the
/// order in which they were served, together with the one right before it.
pub proof fn law_batch_blocks_stay_in_order<B, R, F: Fn(&B) -> Result<R, String>>(
    blocks: Seq<B>,
    count: nat,
    convert: F,
    pairs: Vec<(R, B)>,
    i: int,
)
    requires
        with_parents(blocks, count, convert, Ok(pairs)),
        0 <= i < count,
    ensures
        pairs@.len() == count,
        blocks.len() == count + 1,
        pairs@[i].1 == blocks[i],
        call_ensures(convert, (&blocks[i + 1],), Ok(pairs@[i].0)),
        i > 0 ==> call_ensures(convert, (&pairs@[i].1,), Ok(pairs@[i - 1].0)),
{
    assert(pairs@[i].1 == blocks[i]);
    if i > 0 {
        assert(pairs@[i - 1].1 == blocks[i - 1]);
    }
}

/// A block can be converted.
pub open spec fn converts<B, R, F: Fn(&B) -> Result<R, String>>(convert: F, block: B) -> bool {
    exists|made: R| call_ensures(convert, (&block,), Ok(made))
}

/// A batch fails exactly where a block too many or too few came, or where a block after the first
/// cannot be converted while all before it can; the failure tells why that block cannot.
pub proof fn law_batch_of_blocks_fails_only_for_cause<B, R, F: Fn(&B) -> Result<R, String>>(
    blocks: Seq<B>,
    count: nat,
    convert: F,
    r: Result<Vec<(R, B)>, PreflightError>,
)
    requires
        with_parents(blocks, count, convert, r),
    ensures
        blocks.len() != count + 1 <==> r == Err::<Vec<(R, B)>, _>(
            PreflightError::BlockCountMismatch,
        ),
        match r {
            Ok(_) => true,
            Err(PreflightError::BlockCountMismatch) => true,
            Err(PreflightError::BatchBlockNotConverted(why)) => exists|k: int|
                {
                    &&& 0 < k <= count
                    &&& call_ensures(convert, (&(#[trigger] blocks[k]),), Err::<R, _>(why))
                    &&& forall|j: int| 0 < j < k ==> converts(convert, #[trigger] blocks[j])
                },
            Err(_) => false,
        },
{
    if let Err(PreflightError::BatchBlockNotConverted(told)) = r {
        if blocks.len() == count + 1 {
            let (done, why) = choose|done: Seq<R>, why: String| #[trigger]
                stopped_after(blocks, count, convert, done, why)
                    && PreflightError::BatchBlockNotConverted(told)
                    == PreflightError::BatchBlockNotConverted(why);
            let k = done.len() + 1;
            assert forall|j: int| 0 < j < k implies converts(convert, #[trigger] blocks[j]) by {
                assert(call_ensures(convert, (&blocks[j],), Ok(done[j - 1])));
            }
            assert(call_ensures(convert, (&blocks[k as int],), Err::<R, _>(why)));
        }
    }
}

/// The headers of two blocks come in the order in which the blocks were named: where `served` is
/// what each question is answered with, the first is that of the first block, which is asked for in
/// full, and the second that of the second.
pub proof fn law_headers_come_in_the_order_asked_for<H>(
    a: u64,
    b: u64,
    served: spec_fn((u64, bool)) -> H,
)
    ensures
        pair_numbers(a, b).len() == 2,
        first_two(pair_numbers(a, b).map_values(served)) matches Ok((x, y)) && x == served(
            (a, true),
        ) && y == served((b, false)),
{
}

/// Headers are missing exactly where fewer than two came.
pub proof fn law_two_headers_are_owed<H>(headers: Seq<H>)
    ensures
        first_two(headers) is Ok <==> headers.len() >= 2,
        first_two(headers) matches Ok((x, y)) ==> x == headers[0] && y == headers[1],
        first_two(headers) matches Err(e) ==> e == PreflightError::NoBlockData,
{
}

} // verus!
