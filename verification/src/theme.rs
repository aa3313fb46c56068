//! The sparse per-key color table and its wire serialization: a `0xCA`
//! sentinel, a count byte, then one five-byte entry per colored key in
//! ascending key order.

use vstd::prelude::*;

use crate::action::Action;
use crate::bluetooth::BluetoothMode;
use crate::layout::Layout;
use crate::layout::NUM_KEYS;

verus! {

/// One color slot per physical key position: none, or red, green, blue
/// and the behavior tag byte.
pub struct LedTheme {
    pub key_colors: [Option<(u8, u8, u8, u8)>; 70],
}

/// How many of the first `n` slots hold a color.
pub open spec fn colored_upto(colors: Seq<Option<(u8, u8, u8, u8)>>, n: int) -> int
    decreases n,
{
    if n <= 0 {
        0
    } else {
        colored_upto(colors, n - 1) + if colors[n - 1] is Some {
            1int
        } else {
            0int
        }
    }
}

/// How many slots of the table hold a color.
pub open spec fn colored_count(t: LedTheme) -> int {
    colored_upto(t.key_colors@, NUM_KEYS as int)
}

/// The serialized entries of the first `n` slots: for each colored slot,
/// in ascending slot order, its index, red, green, blue and mode bytes.
pub open spec fn entry_bytes(colors: Seq<Option<(u8, u8, u8, u8)>>, n: int) -> Seq<u8>
    decreases n,
{
    if n <= 0 {
        Seq::empty()
    } else {
        entry_bytes(colors, n - 1) + if colors[n - 1] is Some {
            let c = colors[n - 1]->Some_0;
            seq![(n - 1) as u8, c.0, c.1, c.2, c.3]
        } else {
            Seq::empty()
        }
    }
}

/// The whole serialized color table: the `0xCA` sentinel, the count byte
/// (one more than the number of colored slots), then the entries.
pub open spec fn theme_payload_bytes(colors: Seq<Option<(u8, u8, u8, u8)>>) -> Seq<u8> {
    seq![0xca as u8, (1 + colored_upto(colors, NUM_KEYS as int)) as u8] + entry_bytes(
        colors,
        NUM_KEYS as int,
    )
}

/// The entries of the first `n` slots take five bytes per colored slot.
pub proof fn lemma_entry_bytes_len(colors: Seq<Option<(u8, u8, u8, u8)>>, n: int)
    requires
        0 <= n,
    ensures
        entry_bytes(colors, n).len() == 5 * colored_upto(colors, n),
    decreases n,
{
    if n > 0 {
        lemma_entry_bytes_len(colors, n - 1);
    }
}

/// Counting colored slots over a longer prefix never counts fewer.
pub proof fn lemma_colored_upto_monotone(colors: Seq<Option<(u8, u8, u8, u8)>>, a: int, b: int)
    requires
        0 <= a <= b,
    ensures
        colored_upto(colors, a) <= colored_upto(colors, b),
    decreases b - a,
{
    if a < b {
        lemma_colored_upto_monotone(colors, a, b - 1);
    }
}

/// At most `n` of the first `n` slots are colored.
pub proof fn lemma_colored_upto_bound(colors: Seq<Option<(u8, u8, u8, u8)>>, n: int)
    requires
        0 <= n,
    ensures
        0 <= colored_upto(colors, n) <= n,
    decreases n,
{
    if n > 0 {
        lemma_colored_upto_bound(colors, n - 1);
    }
}

impl LedTheme {
    /// A table with every key unlit.
    pub fn new() -> (t: LedTheme)
        ensures
            forall|i: int| 0 <= i < NUM_KEYS ==> t.key_colors@[i] is None,
            colored_count(t) == 0,
    {
        let t = LedTheme { key_colors: [None; 70] };
        proof {
            lemma_colored_upto_zero(t.key_colors@, NUM_KEYS as int);
        }
        t
    }

    /// Serializes the table over the front of `payload` and returns the
    /// written length, `2 + 5 * colored_count`: the `0xCA` sentinel, a
    /// count byte holding one more than the number of colored keys, then
    /// for each colored key — in ascending key order — its index, red,
    /// green, blue and mode bytes. Bytes past the written length are left
    /// as they were.
    pub fn fill_payload(&self, payload: &mut Vec<u8>) -> (len: usize)
        requires
            old(payload)@.len() >= 2 + 5 * colored_count(*self),
        ensures
            final(payload)@.len() == old(payload)@.len(),
            len == 2 + 5 * colored_count(*self),
            final(payload)@[0] == 0xca,
            final(payload)@[1] == (1 + colored_count(*self)) as u8,
            forall|k: int|
                0 <= k < NUM_KEYS && self.key_colors@[k] is Some ==> {
                    let off = 2 + 5 * colored_upto(self.key_colors@, k);
                    let c = self.key_colors@[k]->Some_0;
                    &&& final(payload)@[off] == k as u8
                    &&& final(payload)@[off + 1] == c.0
                    &&& final(payload)@[off + 2] == c.1
                    &&& final(payload)@[off + 3] == c.2
                    &&& final(payload)@[off + 4] == c.3
                },
            forall|j: int|
                len <= j < old(payload)@.len() && j != 1 ==> final(payload)@[j] == old(payload)@[j],
            final(payload)@.subrange(0, len as int) == theme_payload_bytes(self.key_colors@),
    {
        proof {
            lemma_colored_upto_bound(self.key_colors@, NUM_KEYS as int);
        }
        payload.set(0, 0xca);
        let mut key_count: usize = 0;
        let mut index: usize = 0;
        while index < NUM_KEYS
            invariant
                index <= NUM_KEYS,
                key_count == colored_upto(self.key_colors@, index as int),
                0 <= key_count <= index,
                colored_upto(self.key_colors@, NUM_KEYS as int) <= NUM_KEYS,
                payload@.len() == old(payload)@.len(),
                old(payload)@.len() >= 2 + 5 * colored_count(*self),
                payload@[0] == 0xca,
                forall|k: int|
                    0 <= k < index && self.key_colors@[k] is Some ==> {
                        let off = 2 + 5 * colored_upto(self.key_colors@, k);
                        let c = self.key_colors@[k]->Some_0;
                        &&& payload@[off] == k as u8
                        &&& payload@[off + 1] == c.0
                        &&& payload@[off + 2] == c.1
                        &&& payload@[off + 3] == c.2
                        &&& payload@[off + 4] == c.3
                    },
                forall|j: int|
                    2 + 5 * key_count <= j < old(payload)@.len() ==> payload@[j] == old(
                        payload,
                    )@[j],
                payload@.subrange(2, 2 + 5 * (key_count as int)) == entry_bytes(
                    self.key_colors@,
                    index as int,
                ),
            decreases NUM_KEYS - index,
        {
            proof {
                lemma_colored_upto_monotone(self.key_colors@, index + 1, NUM_KEYS as int);
            }
            match self.key_colors[index] {
                Some(color) => {
                    let ghost pre = payload@;
                    let (r, g, b, mode) = color;
                    let offset: usize = 2 + key_count * 5;
                    payload.set(offset, index as u8);
                    payload.set(offset + 1, r);
                    payload.set(offset + 2, g);
                    payload.set(offset + 3, b);
                    payload.set(offset + 4, mode);
                    proof {
                        assert forall|k: int|
                            0 <= k < index && self.key_colors@[k] is Some implies {
                            let off = 2 + 5 * colored_upto(self.key_colors@, k);
                            let c = self.key_colors@[k]->Some_0;
                            &&& payload@[off] == k as u8
                            &&& payload@[off + 1] == c.0
                            &&& payload@[off + 2] == c.1
                            &&& payload@[off + 3] == c.2
                            &&& payload@[off + 4] == c.3
                        } by {
                            lemma_colored_upto_bound(self.key_colors@, k);
                            lemma_colored_upto_monotone(self.key_colors@, k + 1, index as int);
                            let off = 2 + 5 * colored_upto(self.key_colors@, k);
                            assert(2 <= off && off + 4 < offset);
                            assert(pre[off] == k as u8);
                            assert(pre[off + 1] == self.key_colors@[k]->Some_0.0);
                            assert(pre[off + 2] == self.key_colors@[k]->Some_0.1);
                            assert(pre[off + 3] == self.key_colors@[k]->Some_0.2);
                            assert(pre[off + 4] == self.key_colors@[k]->Some_0.3);
                            assert(payload@ == pre.update(offset as int, index as u8).update(
                                offset + 1,
                                r,
                            ).update(offset + 2, g).update(offset + 3, b).update(
                                offset + 4,
                                mode,
                            ));
                            assert(payload@[off] == pre[off]);
                            assert(payload@[off + 1] == pre[off + 1]);
                            assert(payload@[off + 2] == pre[off + 2]);
                            assert(payload@[off + 3] == pre[off + 3]);
                            assert(payload@[off + 4] == pre[off + 4]);
                        }
                        lemma_entry_bytes_len(self.key_colors@, index as int);
                        assert forall|j: int|
                            0 <= j < 5 * (key_count as int) implies #[trigger] payload@[2 + j]
                            == pre[2 + j] by {}
                        assert(payload@.subrange(2, 2 + 5 * ((key_count + 1) as int))
                            =~= entry_bytes(self.key_colors@, index as int + 1));
                    }
                    key_count += 1;
                },
                None => {
                    proof {
                        assert(entry_bytes(self.key_colors@, index as int + 1) =~= entry_bytes(
                            self.key_colors@,
                            index as int,
                        ));
                    }
                },
            }
            index += 1;
        }
        let ghost fin = payload@;
        payload.set(1, (key_count + 1) as u8);
        proof {
            assert forall|k: int|
                0 <= k < NUM_KEYS && self.key_colors@[k] is Some implies {
                let off = 2 + 5 * colored_upto(self.key_colors@, k);
                let c = self.key_colors@[k]->Some_0;
                &&& payload@[off] == k as u8
                &&& payload@[off + 1] == c.0
                &&& payload@[off + 2] == c.1
                &&& payload@[off + 3] == c.2
                &&& payload@[off + 4] == c.3
            } by {
                lemma_colored_upto_bound(self.key_colors@, k);
                lemma_colored_upto_monotone(self.key_colors@, k + 1, NUM_KEYS as int);
                let off = 2 + 5 * colored_upto(self.key_colors@, k);
                assert(2 <= off && off + 4 < fin.len());
                assert(fin[off] == k as u8);
                assert(fin[off + 1] == self.key_colors@[k]->Some_0.0);
                assert(fin[off + 2] == self.key_colors@[k]->Some_0.1);
                assert(fin[off + 3] == self.key_colors@[k]->Some_0.2);
                assert(fin[off + 4] == self.key_colors@[k]->Some_0.3);
                assert(payload@[off] == fin[off]);
                assert(payload@[off + 1] == fin[off + 1]);
                assert(payload@[off + 2] == fin[off + 2]);
                assert(payload@[off + 3] == fin[off + 3]);
                assert(payload@[off + 4] == fin[off + 4]);
            }
            lemma_entry_bytes_len(self.key_colors@, NUM_KEYS as int);
            assert forall|j: int|
                0 <= j < 5 * (key_count as int) implies #[trigger] payload@[2 + j] == fin[2
                + j] by {}
            assert(payload@.subrange(0, 2 + 5 * (key_count as int)) =~= theme_payload_bytes(
                self.key_colors@,
            ));
        }
        2 + key_count * 5
    }
}

/// A sequence of unlit slots has no colored prefix.
proof fn lemma_colored_upto_zero(colors: Seq<Option<(u8, u8, u8, u8)>>, n: int)
    requires
        forall|i: int| 0 <= i < n ==> colors[i] is None,
    ensures
        colored_upto(colors, n) == 0,
    decreases n,
{
    if n > 0 {
        lemma_colored_upto_zero(colors, n - 1);
    }
}

/// Renders a layout against the live device state: every key position
/// gets exactly the color that the policy assigns to its bound action.
pub fn layout_to_theme(
    layout: &Layout,
    bt_saved_hosts: u8,
    bt_connected_host: u8,
    bt_mode: BluetoothMode,
    usb_report_enabled: bool,
) -> (t: LedTheme)
    ensures
        forall|i: int|
            0 <= i < NUM_KEYS ==> t.key_colors@[i] == layout@[i].color_spec(
                bt_saved_hosts,
                bt_connected_host,
                bt_mode,
                usb_report_enabled,
            ),
{
    let mut theme = LedTheme::new();
    let mut index: usize = 0;
    while index < NUM_KEYS
        invariant
            index <= NUM_KEYS,
            theme.key_colors@.len() == NUM_KEYS,
            forall|i: int|
                0 <= i < index ==> theme.key_colors@[i] == layout@[i].color_spec(
                    bt_saved_hosts,
                    bt_connected_host,
                    bt_mode,
                    usb_report_enabled,
                ),
        decreases NUM_KEYS - index,
    {
        theme.key_colors[index] = layout[index].to_color(
            bt_saved_hosts,
            bt_connected_host,
            bt_mode,
            usb_report_enabled,
        );
        index += 1;
    }
    theme
}

} // verus!
