//! The terminal head: the batch widths for which graphs are captured, how a
//! batch is padded to one of them, and how its output is read.
use vstd::prelude::*;

use crate::dspark::plan::DSPARK_PROPOSAL_ROWS_PER_REQUEST;
use crate::text::{append_size, decimal};

verus! {

/// Two to the power of `n`.
pub open spec fn power(n: int) -> int
    decreases n,
{
    if n <= 0 {
        1
    } else {
        2 * power(n - 1)
    }
}

/// The widths are the powers of two below the batch limit, then the limit
/// itself.
pub open spec fn buckets_ok(buckets: Seq<usize>, max_batch: int) -> bool {
    let n = buckets.len() - 1;
    &&& buckets.len() > 0
    &&& buckets[n] == max_batch
    &&& forall|i: int| 0 <= i < n ==> #[trigger] buckets[i] == power(i) && power(i) < max_batch
    &&& power(n) >= max_batch
}

proof fn lemma_power_grows(k: int, n: int)
    requires
        0 <= k <= n,
    ensures
        1 <= power(k) <= power(n),
        k < n ==> power(k) < power(n),
    decreases n,
{
    if k < n {
        lemma_power_grows(k, n - 1);
    } else if n > 0 {
        lemma_power_grows(n - 1, n - 1);
    }
}

/// The batch widths for which the terminal head is captured.
pub fn dspark_terminal_request_buckets(max_batch: usize) -> (buckets: Vec<usize>)
    ensures
        buckets_ok(buckets@, max_batch as int),
{
    let mut buckets: Vec<usize> = Vec::new();
    let mut width: usize = 1;
    while width < max_batch
        invariant
            width == power(buckets@.len() as int),
            1 <= width,
            forall|i: int|
                0 <= i < buckets@.len() ==> #[trigger] buckets@[i] == power(i) && power(i)
                    < max_batch,
        decreases max_batch - width,
    {
        let ghost n = buckets@.len() as int;
        let ghost below = buckets@;
        if width > max_batch - width {
            buckets.push(width);
            buckets.push(max_batch);
            proof {
                assert(power(n + 1) == 2 * power(n));
                assert(buckets@.len() - 1 == n + 1);
                assert forall|i: int| 0 <= i < n + 1 implies #[trigger] buckets@[i] == power(i)
                    && power(i) < max_batch by {
                    if i == n {
                        assert(buckets@[n] == width);
                    } else {
                        assert(buckets@[i] == below[i]);
                    }
                }
            }
            return buckets;
        }
        buckets.push(width);
        width = 2 * width;
        proof {
            assert forall|i: int| 0 <= i < buckets@.len() implies #[trigger] buckets@[i] == power(i)
                && power(i) < max_batch by {
                if i < n {
                    assert(buckets@[i] == below[i]);
                }
            }
        }
    }
    let ghost below = buckets@;
    buckets.push(max_batch);
    proof {
        assert forall|i: int| 0 <= i < buckets@.len() - 1 implies #[trigger] buckets@[i] == power(i)
            && power(i) < max_batch by {
            assert(buckets@[i] == below[i]);
        }
    }
    buckets
}

/// The widths grow strictly, and every batch has one that holds it.
pub proof fn law_buckets_grow_and_hold_every_batch(buckets: Seq<usize>, max_batch: int, active: int)
    requires
        buckets_ok(buckets, max_batch),
        1 <= active <= max_batch,
    ensures
        forall|i: int, j: int|
            0 <= i < j < buckets.len() ==> #[trigger] buckets[i] < #[trigger] buckets[j],
        exists|i: int| 0 <= i < buckets.len() && #[trigger] buckets[i] >= active,
{
    let n = buckets.len() - 1;
    assert forall|i: int, j: int| 0 <= i < j < buckets.len() implies #[trigger] buckets[i]
        < #[trigger] buckets[j] by {
        if j < n {
            lemma_power_grows(i, j);
        }
    }
    assert(buckets[n] >= active);
}

/// The batch limit determines the widths.
pub proof fn law_buckets_are_determined(a: Seq<usize>, b: Seq<usize>, max_batch: int)
    requires
        buckets_ok(a, max_batch),
        buckets_ok(b, max_batch),
    ensures
        a == b,
{
    let n = a.len() - 1;
    let m = b.len() - 1;
    if n < m {
        assert(b[n] == power(n));
    } else if m < n {
        assert(a[m] == power(m));
    }
    assert forall|i: int| 0 <= i < a.len() implies a[i] == b[i] by {
        if i < n {
            assert(a[i] == power(i) && b[i] == power(i));
        }
    }
    assert(a =~= b);
}

/// Why a terminal batch is refused.
#[derive(Clone, Copy, Debug, PartialEq, Eq, Structural)]
pub enum TerminalBatchError {
    Entries { max_batch: usize },
    Geometry { request: usize, slot: usize, anchor: usize, max_batch: usize, vocab: usize },
    Duplicate { slot: usize },
    NoBucket,
    SlotExceedsU32,
    AnchorExceedsU32,
}

impl TerminalBatchError {
    pub open spec fn text(self) -> Seq<char> {
        match self {
            TerminalBatchError::Entries { max_batch } =>
                "integrated dSpark terminal batch slots/anchors must have one to "@ + decimal(
                max_batch as nat,
            ) + " matching entries"@,
            TerminalBatchError::Geometry { request, slot, anchor, max_batch, vocab } =>
                "integrated dSpark terminal request "@ + decimal(request as nat) + " has slot "@
                + decimal(slot as nat) + " or anchor "@ + decimal(anchor as nat)
                + " outside geometry "@ + decimal(max_batch as nat) + "/"@ + decimal(vocab as nat),
            TerminalBatchError::Duplicate { slot } =>
                "integrated dSpark terminal active slot "@ + decimal(slot as nat)
                + " is duplicated"@,
            TerminalBatchError::NoBucket =>
                "integrated dSpark terminal batch has no captured width bucket"@,
            TerminalBatchError::SlotExceedsU32 => "integrated dSpark terminal slot exceeds u32"@,
            TerminalBatchError::AnchorExceedsU32 =>
                "integrated dSpark terminal anchor exceeds u32"@,
        }
    }

    pub fn message(&self) -> (out: String)
        ensures
            out@ == self.text(),
    {
        match *self {
            TerminalBatchError::Entries { max_batch } => {
                let mut out: String =
                    "integrated dSpark terminal batch slots/anchors must have one to ".to_owned();
                append_size(&mut out, max_batch);
                out.append(" matching entries");
                out
            },
            TerminalBatchError::Geometry { request, slot, anchor, max_batch, vocab } => {
                let mut out: String = "integrated dSpark terminal request ".to_owned();
                append_size(&mut out, request);
                out.append(" has slot ");
                append_size(&mut out, slot);
                out.append(" or anchor ");
                append_size(&mut out, anchor);
                out.append(" outside geometry ");
                append_size(&mut out, max_batch);
                out.append("/");
                append_size(&mut out, vocab);
                out
            },
            TerminalBatchError::Duplicate { slot } => {
                let mut out: String = "integrated dSpark terminal active slot ".to_owned();
                append_size(&mut out, slot);
                out.append(" is duplicated");
                out
            },
            TerminalBatchError::NoBucket => {
                "integrated dSpark terminal batch has no captured width bucket".to_owned()
            },
            TerminalBatchError::SlotExceedsU32 => {
                "integrated dSpark terminal slot exceeds u32".to_owned()
            },
            TerminalBatchError::AnchorExceedsU32 => {
                "integrated dSpark terminal anchor exceeds u32".to_owned()
            },
        }
    }
}

/// A batch ready for the device: the graph it runs on, and the slots and
/// anchors padded to the width of the graph with those of the first request.
#[derive(Debug)]
pub struct TerminalBatch {
    pub graph_index: usize,
    pub request_bucket: usize,
    pub active_slots: Vec<u32>,
    pub anchors: Vec<u32>,
}

/// One entry for every active request, at least one and not too many.
pub open spec fn entries_ok(slots: Seq<usize>, anchors: Seq<usize>, max_batch: usize) -> bool {
    0 < slots.len() <= max_batch && slots.len() == anchors.len()
}

/// Request `r` has a slot and an anchor of the model.
pub open spec fn entry_in_geometry(
    slots: Seq<usize>,
    anchors: Seq<usize>,
    max_batch: usize,
    vocab: usize,
    r: int,
) -> bool {
    slots[r] < max_batch && anchors[r] < vocab
}

/// No request before `r` has the slot of `r`.
pub open spec fn slot_is_new(slots: Seq<usize>, r: int) -> bool {
    forall|k: int| 0 <= k < r ==> #[trigger] slots[k] != slots[r]
}

/// The first `n` requests are as they should be.
pub open spec fn entries_valid(
    slots: Seq<usize>,
    anchors: Seq<usize>,
    max_batch: usize,
    vocab: usize,
    n: int,
) -> bool {
    forall|r: int|
        #![trigger slots[r]]
        0 <= r < n ==> entry_in_geometry(slots, anchors, max_batch, vocab, r) && slot_is_new(
            slots,
            r,
        )
}

/// The graph is the first that holds the batch.
pub open spec fn first_bucket(buckets: Seq<usize>, active: int, i: int) -> bool {
    &&& 0 <= i < buckets.len()
    &&& buckets[i] >= active
    &&& forall|j: int| 0 <= j < i ==> #[trigger] buckets[j] < active
}

/// The padded entry of request `r`.
pub open spec fn padded(values: Seq<usize>, r: int) -> usize {
    if r < values.len() {
        values[r]
    } else {
        values[0]
    }
}

/// The batch that is sent to the device.
pub open spec fn batch_ok(
    batch: TerminalBatch,
    slots: Seq<usize>,
    anchors: Seq<usize>,
    buckets: Seq<usize>,
) -> bool {
    &&& first_bucket(buckets, slots.len() as int, batch.graph_index as int)
    &&& batch.request_bucket == buckets[batch.graph_index as int]
    &&& batch.active_slots@.len() == batch.request_bucket
    &&& batch.anchors@.len() == batch.request_bucket
    &&& forall|r: int|
        0 <= r < batch.request_bucket ==> #[trigger] batch.active_slots@[r] == padded(slots, r)
    &&& forall|r: int|
        0 <= r < batch.request_bucket ==> #[trigger] batch.anchors@[r] == padded(anchors, r)
}

/// The first `n` entries can be written as 32-bit words.
pub open spec fn words_fit(slots: Seq<usize>, anchors: Seq<usize>, n: int) -> bool {
    forall|r: int|
        #![trigger slots[r]]
        0 <= r < n ==> slots[r] <= u32::MAX && anchors[r] <= u32::MAX
}

/// The batch is accepted.
pub open spec fn batch_accepted(
    slots: Seq<usize>,
    anchors: Seq<usize>,
    max_batch: usize,
    vocab: usize,
    buckets: Seq<usize>,
) -> bool {
    &&& entries_ok(slots, anchors, max_batch)
    &&& entries_valid(slots, anchors, max_batch, vocab, slots.len() as int)
    &&& exists|i: int| #[trigger] first_bucket(buckets, slots.len() as int, i)
    &&& words_fit(slots, anchors, slots.len() as int)
}

/// The first reason why the batch is refused.
pub open spec fn batch_refused(
    slots: Seq<usize>,
    anchors: Seq<usize>,
    max_batch: usize,
    vocab: usize,
    buckets: Seq<usize>,
    error: TerminalBatchError,
) -> bool {
    match error {
        TerminalBatchError::Entries { max_batch: limit } => limit == max_batch && !entries_ok(
            slots,
            anchors,
            max_batch,
        ),
        TerminalBatchError::Geometry { request, slot, anchor, max_batch: limit, vocab: words } => {
            &&& entries_ok(slots, anchors, max_batch)
            &&& limit == max_batch
            &&& words == vocab
            &&& request < slots.len()
            &&& entries_valid(slots, anchors, max_batch, vocab, request as int)
            &&& !entry_in_geometry(slots, anchors, max_batch, vocab, request as int)
            &&& slot == slots[request as int]
            &&& anchor == anchors[request as int]
        },
        TerminalBatchError::Duplicate { slot } => {
            &&& entries_ok(slots, anchors, max_batch)
            &&& exists|r: int|
                {
                    &&& 0 <= r < slots.len()
                    &&& #[trigger] slots[r] == slot
                    &&& entries_valid(slots, anchors, max_batch, vocab, r)
                    &&& entry_in_geometry(slots, anchors, max_batch, vocab, r)
                    &&& !slot_is_new(slots, r)
                }
        },
        TerminalBatchError::NoBucket => {
            &&& entries_ok(slots, anchors, max_batch)
            &&& entries_valid(slots, anchors, max_batch, vocab, slots.len() as int)
            &&& forall|i: int| 0 <= i < buckets.len() ==> #[trigger] buckets[i] < slots.len()
        },
        TerminalBatchError::SlotExceedsU32 => {
            &&& entries_ok(slots, anchors, max_batch)
            &&& entries_valid(slots, anchors, max_batch, vocab, slots.len() as int)
            &&& exists|i: int| #[trigger] first_bucket(buckets, slots.len() as int, i)
            &&& exists|r: int|
                {
                    &&& 0 <= r < slots.len()
                    &&& #[trigger] slots[r] > u32::MAX
                    &&& words_fit(slots, anchors, r)
                }
        },
        TerminalBatchError::AnchorExceedsU32 => {
            &&& entries_ok(slots, anchors, max_batch)
            &&& entries_valid(slots, anchors, max_batch, vocab, slots.len() as int)
            &&& exists|i: int| #[trigger] first_bucket(buckets, slots.len() as int, i)
            &&& exists|r: int|
                {
                    &&& 0 <= r < slots.len()
                    &&& #[trigger] slots[r] <= u32::MAX
                    &&& anchors[r] > u32::MAX
                    &&& words_fit(slots, anchors, r)
                }
        },
    }
}

fn slot_seen(slots: &[usize], request: usize) -> (seen: bool)
    requires
        request < slots@.len(),
    ensures
        seen == !slot_is_new(slots@, request as int),
{
    let mut k: usize = 0;
    while k < request
        invariant
            k <= request,
            request < slots@.len(),
            forall|j: int| 0 <= j < k ==> #[trigger] slots@[j] != slots@[request as int],
        decreases request - k,
    {
        if slots[k] == slots[request] {
            assert(slots@[k as int] == slots@[request as int]);
            return true;
        }
        k = k + 1;
    }
    false
}

fn find_bucket(buckets: &[usize], active: usize) -> (found: Option<usize>)
    ensures
        match found {
            Some(i) => first_bucket(buckets@, active as int, i as int),
            None => forall|i: int| 0 <= i < buckets@.len() ==> #[trigger] buckets@[i] < active,
        },
{
    let mut i: usize = 0;
    while i < buckets.len()
        invariant
            i <= buckets@.len(),
            forall|j: int| 0 <= j < i ==> #[trigger] buckets@[j] < active,
        decreases buckets@.len() - i,
    {
        if buckets[i] >= active {
            return Some(i);
        }
        i = i + 1;
    }
    None
}

/// Pads a batch to the first captured width that holds it. `buckets` are the
/// captured widths.
pub fn prepare_terminal_batch(
    active_slots: &[usize],
    anchor_token_ids: &[usize],
    max_batch: usize,
    vocab: usize,
    buckets: &[usize],
) -> (result: Result<TerminalBatch, TerminalBatchError>)
    ensures
        result is Ok <==> batch_accepted(
            active_slots@,
            anchor_token_ids@,
            max_batch,
            vocab,
            buckets@,
        ),
        result matches Ok(batch) ==> batch_ok(batch, active_slots@, anchor_token_ids@, buckets@),
        result matches Err(e) ==> batch_refused(
            active_slots@,
            anchor_token_ids@,
            max_batch,
            vocab,
            buckets@,
            e,
        ),
{
    let active: usize = active_slots.len();
    if active == 0 || active != anchor_token_ids.len() || active > max_batch {
        return Err(TerminalBatchError::Entries { max_batch });
    }
    let mut request: usize = 0;
    while request < active
        invariant
            request <= active,
            active == active_slots@.len(),
            entries_ok(active_slots@, anchor_token_ids@, max_batch),
            entries_valid(
                active_slots@,
                anchor_token_ids@,
                max_batch,
                vocab,
                request as int,
            ),
        decreases active - request,
    {
        let slot: usize = active_slots[request];
        let anchor: usize = anchor_token_ids[request];
        if slot >= max_batch || anchor >= vocab {
            assert(!entry_in_geometry(
                active_slots@,
                anchor_token_ids@,
                max_batch,
                vocab,
                request as int,
            ));
            return Err(TerminalBatchError::Geometry { request, slot, anchor, max_batch, vocab });
        }
        if slot_seen(active_slots, request) {
            assert(active_slots@[request as int] == slot);
            return Err(TerminalBatchError::Duplicate { slot });
        }
        request = request + 1;
    }
    let graph_index: usize = match find_bucket(buckets, active) {
        Some(i) => i,
        None => {
            return Err(TerminalBatchError::NoBucket);
        },
    };
    let request_bucket: usize = buckets[graph_index];
    let mut slots: Vec<u32> = Vec::new();
    let mut anchors: Vec<u32> = Vec::new();
    let mut r: usize = 0;
    while r < request_bucket
        invariant
            r <= request_bucket,
            0 < active <= request_bucket,
            first_bucket(buckets@, active as int, graph_index as int),
            active == active_slots@.len(),
            active == anchor_token_ids@.len(),
            entries_ok(active_slots@, anchor_token_ids@, max_batch),
            entries_valid(active_slots@, anchor_token_ids@, max_batch, vocab, active as int),
            slots@.len() == r,
            anchors@.len() == r,
            forall|k: int| 0 <= k < r ==> #[trigger] slots@[k] == padded(active_slots@, k),
            forall|k: int| 0 <= k < r ==> #[trigger] anchors@[k] == padded(anchor_token_ids@, k),
            forall|k: int|
                #![trigger active_slots@[k]]
                0 <= k < r && k < active ==> active_slots@[k] <= u32::MAX && anchor_token_ids@[k]
                    <= u32::MAX,
        decreases request_bucket - r,
    {
        let source: usize = if r < active {
            r
        } else {
            0
        };
        let slot: usize = active_slots[source];
        let anchor: usize = anchor_token_ids[source];
        if slot > u32::MAX as usize {
            assert(active_slots@[source as int] > u32::MAX);
            assert(source == r);
            assert(words_fit(active_slots@, anchor_token_ids@, source as int));
            return Err(TerminalBatchError::SlotExceedsU32);
        }
        if anchor > u32::MAX as usize {
            assert(active_slots@[source as int] <= u32::MAX);
            assert(source == r);
            assert(words_fit(active_slots@, anchor_token_ids@, source as int));
            return Err(TerminalBatchError::AnchorExceedsU32);
        }
        slots.push(slot as u32);
        anchors.push(anchor as u32);
        r = r + 1;
    }
    Ok(TerminalBatch { graph_index, request_bucket, active_slots: slots, anchors })
}

/// The proposals of a batch, request by request, five of each. Confidences are
/// the bit patterns of 32-bit floating-point values.
#[derive(Debug)]
pub struct DeepseekV4DsparkTerminalBatchOutput {
    pub active_requests: usize,
    pub proposal_token_ids: Vec<u32>,
    pub conditional_confidence_bits: Vec<u32>,
}

/// The words that are read back: the anchors and five proposals of every
/// request of the bucket, and five confidences.
pub fn terminal_readback_words(request_bucket: usize) -> (words: Option<(usize, usize)>)
    ensures
        words == (if request_bucket * 6 <= usize::MAX {
            Some(((request_bucket * 6) as usize, (request_bucket * 5) as usize))
        } else {
            None
        }),
{
    match request_bucket.checked_mul(DSPARK_PROPOSAL_ROWS_PER_REQUEST + 1) {
        Some(tokens) => Some((tokens, request_bucket * DSPARK_PROPOSAL_ROWS_PER_REQUEST)),
        None => None,
    }
}

/// The output of a batch, request by request, as read from what the device wrote
/// position by position.
pub open spec fn batch_output_ok(
    output: DeepseekV4DsparkTerminalBatchOutput,
    active_requests: usize,
    request_bucket: usize,
    output_tokens: Seq<u32>,
    confidence_bits: Seq<u32>,
) -> bool {
    &&& output.active_requests == active_requests
    &&& output.proposal_token_ids@ == Seq::new(
        (active_requests * 5) as nat,
        |i: int| output_tokens[(i % 5 + 1) * request_bucket + i / 5],
    )
    &&& output.conditional_confidence_bits@ == Seq::new(
        (active_requests * 5) as nat,
        |i: int| confidence_bits[(i % 5) * request_bucket + i / 5],
    )
}

/// Reads the output of a batch. The device writes position by position, the
/// anchors first; the result goes request by request.
pub fn read_terminal_batch(
    active_requests: usize,
    request_bucket: usize,
    output_tokens: &[u32],
    confidence_bits: &[u32],
) -> (output: DeepseekV4DsparkTerminalBatchOutput)
    requires
        active_requests <= request_bucket,
        request_bucket * 6 <= usize::MAX,
        output_tokens@.len() >= request_bucket * 6,
        confidence_bits@.len() >= request_bucket * 5,
    ensures
        batch_output_ok(
            output,
            active_requests,
            request_bucket,
            output_tokens@,
            confidence_bits@,
        ),
{
    let mut proposal_token_ids: Vec<u32> = Vec::new();
    let mut conditional_confidence_bits: Vec<u32> = Vec::new();
    let mut request: usize = 0;
    while request < active_requests
        invariant
            request <= active_requests <= request_bucket,
            request_bucket * 6 <= usize::MAX,
            output_tokens@.len() >= request_bucket * 6,
            confidence_bits@.len() >= request_bucket * 5,
            proposal_token_ids@ == Seq::new(
                (request * 5) as nat,
                |i: int| output_tokens@[(i % 5 + 1) * request_bucket + i / 5],
            ),
            conditional_confidence_bits@ == Seq::new(
                (request * 5) as nat,
                |i: int| confidence_bits@[(i % 5) * request_bucket + i / 5],
            ),
        decreases active_requests - request,
    {
        let mut position: usize = 0;
        while position < 5
            invariant
                position <= 5,
                request < active_requests <= request_bucket,
                request_bucket * 6 <= usize::MAX,
                output_tokens@.len() >= request_bucket * 6,
                confidence_bits@.len() >= request_bucket * 5,
                proposal_token_ids@ == Seq::new(
                    (request * 5 + position) as nat,
                    |i: int| output_tokens@[(i % 5 + 1) * request_bucket + i / 5],
                ),
                conditional_confidence_bits@ == Seq::new(
                    (request * 5 + position) as nat,
                    |i: int| confidence_bits@[(i % 5) * request_bucket + i / 5],
                ),
            decreases 5 - position,
        {
            proof {
                assert(position * request_bucket <= 4 * request_bucket) by (nonlinear_arith)
                    requires
                        position <= 4,
                ;
                assert((position + 1) * request_bucket == position * request_bucket
                    + request_bucket) by (nonlinear_arith);
                assert((request * 5 + position) % 5 == position && (request * 5 + position) / 5
                    == request);
            }
            let token: u32 = output_tokens[(position + 1) * request_bucket + request];
            let confidence: u32 = confidence_bits[position * request_bucket + request];
            proposal_token_ids.push(token);
            conditional_confidence_bits.push(confidence);
            position = position + 1;
            assert(proposal_token_ids@ =~= Seq::new(
                (request * 5 + position) as nat,
                |i: int| output_tokens@[(i % 5 + 1) * request_bucket + i / 5],
            ));
            assert(conditional_confidence_bits@ =~= Seq::new(
                (request * 5 + position) as nat,
                |i: int| confidence_bits@[(i % 5) * request_bucket + i / 5],
            ));
        }
        request = request + 1;
    }
    DeepseekV4DsparkTerminalBatchOutput {
        active_requests,
        proposal_token_ids,
        conditional_confidence_bits,
    }
}

} // verus!
