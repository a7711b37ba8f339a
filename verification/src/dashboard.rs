//! What the validator's terminal dashboard shows, and when it asks the validator what.

use vstd::prelude::*;
use crate::numeric_text::{
    all_decimal_digits, decimal_text, digits_value, lemma_zero_padded_digits, lemma_zero_padded_len,
    law_decimal_round_trip, pow10,
    parsed_u64, push_decimal, push_zero_padded, text_eq, zero_padded_text,
};

verus! {

/// Lamports in one SOL.
pub const LAMPORTS_PER_SOL: u64 = 1_000_000_000;

/// An amount of lamports written in SOL: `◎`, the whole SOL, a point and the
/// lamports left over in nine digits.
pub open spec fn sol_amount_text(lamports: u64) -> Seq<char> {
    seq!['◎'] + decimal_text((lamports / LAMPORTS_PER_SOL) as nat) + seq!['.'] + zero_padded_text(
        (lamports % LAMPORTS_PER_SOL) as nat,
        9,
    )
}

/// Writes an amount of lamports with the `Display` of `solana_sdk::native_token::Sol`.
/// Claimed, as that impl writes it (`"◎{}.{:09}"` of the whole SOL and the rest):
/// the text is `sol_amount_text`.
#[verifier::external_body]
fn sol_text(lamports: u64) -> (res: String)
    ensures
        res@ == sol_amount_text(lamports),
{
    solana_sdk::native_token::Sol(lamports).to_string()
}

/// The escape codes that turn on red and bold.
pub open spec fn red_bold_on() -> Seq<char> {
    seq!['\x1b', '[', '3', '1', 'm', '\x1b', '[', '1', 'm']
}

/// The escape code that resets the terminal's style.
pub open spec fn style_reset() -> Seq<char> {
    seq!['\x1b', '[', '0', 'm']
}

/// Whether `shown` is `text` as the terminal shows it in bold red: either plain, where
/// the terminal takes no colours, or between the codes that turn bold red on and off.
pub open spec fn emphasis_of(text: Seq<char>, shown: Seq<char>) -> bool {
    shown == text || shown == red_bold_on() + text + style_reset()
}

/// Writes a text in bold red with `console::style(text).bold().red()`. Claimed, as
/// that crate's `Display` of a styled object writes it: the text as it is where
/// colours are off, else between the codes for red, bold and reset. Which of the two
/// depends on the terminal and the environment, and is left open.
#[verifier::external_body]
fn emphasized(text: &str) -> (res: String)
    ensures
        emphasis_of(text@, res@),
{
    console::style(text).bold().red().to_string()
}

/// The largest whole number of seconds the dashboard's clock (`chrono`'s time delta)
/// can hold: `i64::MAX` milliseconds.
pub const MAX_DELTA_SECS: u64 = 9_223_372_036_854_775;

/// The largest nanosecond part the dashboard's clock holds at `MAX_DELTA_SECS`.
pub const MAX_DELTA_NANOS: u32 = 807_000_000;

/// Whether an elapsed time fits in the dashboard's clock.
pub open spec fn uptime_in_range(secs: u64, nanos: u32) -> bool {
    secs < MAX_DELTA_SECS || (secs == MAX_DELTA_SECS && nanos <= MAX_DELTA_NANOS)
}

/// Whether an elapsed time fits in the dashboard's clock.
pub fn uptime_fits(secs: u64, nanos: u32) -> (res: bool)
    ensures
        res == uptime_in_range(secs, nanos),
{
    secs < MAX_DELTA_SECS || (secs == MAX_DELTA_SECS && nanos <= MAX_DELTA_NANOS)
}

/// The uptime shown for `secs` seconds: whole hours, then minutes and seconds of the
/// current hour and minute, each in at least two digits, separated by colons, and a space.
pub open spec fn uptime_text(secs: u64) -> Seq<char> {
    zero_padded_text((secs / 3600) as nat, 2) + seq![':'] + zero_padded_text(
        ((secs / 60) % 60) as nat,
        2,
    ) + seq![':'] + zero_padded_text((secs % 60) as nat, 2) + seq![' ']
}

/// Appends the uptime text of an elapsed time of `secs` seconds and `nanos` nanoseconds.
pub fn push_uptime(out: &mut String, secs: u64, nanos: u32)
    requires
        nanos < 1_000_000_000,
        uptime_in_range(secs, nanos),
    ensures
        final(out)@ == old(out)@ + uptime_text(secs),
{
    let ghost start = out@;
    push_zero_padded(out, secs / 3600, 2);
    out.append(":");
    push_zero_padded(out, (secs / 60) % 60, 2);
    out.append(":");
    push_zero_padded(out, secs % 60, 2);
    out.append(" ");
    proof {
        reveal_strlit(":");
        reveal_strlit(" ");
        assert(final(out)@ =~= start + uptime_text(secs));
    }
}

/// How the validator answered the health check.
#[derive(Clone, Copy, Debug, PartialEq, Eq, Structural)]
pub enum HealthProbe {
    /// Healthy.
    Healthy,
    /// Unhealthy, this many slots behind the cluster.
    SlotsBehind(u64),
    /// Unhealthy for a reason not given, or the check failed.
    Unknown,
}

/// The health text for a probe: `ok`, `N slots behind`, or `health unknown`.
pub open spec fn health_text_of(probe: HealthProbe) -> Seq<char> {
    match probe {
        HealthProbe::Healthy => "ok"@,
        HealthProbe::SlotsBehind(n) => decimal_text(n as nat) + " slots behind"@,
        HealthProbe::Unknown => "health unknown"@,
    }
}

/// The health text for a probe.
pub fn health_text(probe: HealthProbe) -> (res: String)
    ensures
        res@ == health_text_of(probe),
{
    match probe {
        HealthProbe::Healthy => String::from_str("ok"),
        HealthProbe::SlotsBehind(n) => {
            let mut s = String::new();
            push_decimal(&mut s, n);
            s.append(" slots behind");
            s
        },
        HealthProbe::Unknown => String::from_str("health unknown"),
    }
}

/// What the validator reports of its progress.
#[derive(Clone, Debug)]
pub struct ValidatorStats {
    pub max_retransmit_slot: u64,
    pub processed_slot: u64,
    pub confirmed_slot: u64,
    pub finalized_slot: u64,
    pub transaction_count: u64,
    /// The identity account's balance, in lamports.
    pub identity_balance: u64,
    /// The health text.
    pub health: String,
}

/// The status line shown for the validator's stats, given the latest snapshot slot,
/// the uptime in seconds and the health text as the terminal shows it emphasized:
/// the uptime; the health where it is not `ok`; the highest retransmit slot where it
/// is not zero; then the processed, confirmed, finalized and snapshot slots (`-` where
/// there is no snapshot), the transaction count and the identity's balance in SOL.
pub open spec fn status_text(
    stats: ValidatorStats,
    snapshot_slot: Option<u64>,
    uptime_secs: u64,
    shown_health: Seq<char>,
) -> Seq<char> {
    uptime_text(uptime_secs) + (if stats.health@ == "ok"@ {
        Seq::<char>::empty()
    } else {
        "| "@ + shown_health + " "@
    }) + (if stats.max_retransmit_slot == 0 {
        Seq::<char>::empty()
    } else {
        "| Max Slot: "@ + decimal_text(stats.max_retransmit_slot as nat) + " "@
    }) + "| Processed Slot: "@ + decimal_text(stats.processed_slot as nat)
        + " | Confirmed Slot: "@ + decimal_text(stats.confirmed_slot as nat)
        + " | Finalized Slot: "@ + decimal_text(stats.finalized_slot as nat)
        + " | Snapshot Slot: "@ + (match snapshot_slot {
        Some(s) => decimal_text(s as nat),
        None => "-"@,
    }) + " | Transactions: "@ + decimal_text(stats.transaction_count as nat) + " | "@
        + sol_amount_text(stats.identity_balance)
}

/// The status line for the validator's stats, with the health shown as given.
pub fn status_line(
    stats: &ValidatorStats,
    snapshot_slot: Option<u64>,
    uptime_secs: u64,
    uptime_nanos: u32,
    shown_health: &str,
) -> (res: String)
    requires
        uptime_nanos < 1_000_000_000,
        uptime_in_range(uptime_secs, uptime_nanos),
    ensures
        res@ == status_text(*stats, snapshot_slot, uptime_secs, shown_health@),
{
    let mut s = String::new();
    push_uptime(&mut s, uptime_secs, uptime_nanos);
    let ghost after_uptime = s@;
    if !text_eq(stats.health.as_str(), "ok") {
        s.append("| ");
        s.append(shown_health);
        s.append(" ");
    }
    let ghost after_health = s@;
    if stats.max_retransmit_slot != 0 {
        s.append("| Max Slot: ");
        push_decimal(&mut s, stats.max_retransmit_slot);
        s.append(" ");
    }
    let ghost after_max = s@;
    s.append("| Processed Slot: ");
    push_decimal(&mut s, stats.processed_slot);
    s.append(" | Confirmed Slot: ");
    push_decimal(&mut s, stats.confirmed_slot);
    s.append(" | Finalized Slot: ");
    push_decimal(&mut s, stats.finalized_slot);
    s.append(" | Snapshot Slot: ");
    let ghost before_snapshot = s@;
    match snapshot_slot {
        Some(slot) => push_decimal(&mut s, slot),
        None => s.append("-"),
    }
    let ghost after_snapshot = s@;
    s.append(" | Transactions: ");
    push_decimal(&mut s, stats.transaction_count);
    s.append(" | ");
    let balance = sol_text(stats.identity_balance);
    s.append(balance.as_str());
    proof {
        assert(after_health =~= after_uptime + (if stats.health@ == "ok"@ {
            Seq::<char>::empty()
        } else {
            "| "@ + shown_health@ + " "@
        }));
        assert(after_max =~= after_health + (if stats.max_retransmit_slot == 0 {
            Seq::<char>::empty()
        } else {
            "| Max Slot: "@ + decimal_text(stats.max_retransmit_slot as nat) + " "@
        }));
        assert(after_snapshot =~= before_snapshot + (match snapshot_slot {
            Some(x) => decimal_text(x as nat),
            None => "-"@,
        }));
        assert(s@ =~= status_text(*stats, snapshot_slot, uptime_secs, shown_health@));
    }
    s
}

/// The status line for the validator's stats, the health emphasized in bold red where
/// the terminal takes colours.
pub fn dashboard_status_line(
    stats: &ValidatorStats,
    snapshot_slot: Option<u64>,
    uptime_secs: u64,
    uptime_nanos: u32,
) -> (res: String)
    requires
        uptime_nanos < 1_000_000_000,
        uptime_in_range(uptime_secs, uptime_nanos),
    ensures
        exists|shown: Seq<char>|
            emphasis_of(stats.health@, shown) && res@ == status_text(
                *stats,
                snapshot_slot,
                uptime_secs,
                shown,
            ),
{
    let shown = emphasized(stats.health.as_str());
    status_line(stats, snapshot_slot, uptime_secs, uptime_nanos, shown.as_str())
}


/// A line of the dashboard's header: a name and its value.
#[derive(Clone, Debug)]
pub struct NameValue {
    pub name: String,
    pub value: String,
}

impl View for NameValue {
    type V = (Seq<char>, Seq<char>);

    open spec fn view(&self) -> (Seq<char>, Seq<char>) {
        (self.name@, self.value@)
    }
}

/// The texts of a list of header lines.
pub open spec fn lines_view(lines: Seq<NameValue>) -> Seq<(Seq<char>, Seq<char>)> {
    lines.map_values(|l: NameValue| l@)
}

/// Appends a header line.
fn push_line(lines: &mut Vec<NameValue>, name: &str, value: String)
    ensures
        lines_view(final(lines)@) == lines_view(old(lines)@).push((name@, value@)),
{
    lines.push(NameValue { name: String::from_str(name), value });
    proof {
        assert(lines_view(final(lines)@) =~= lines_view(old(lines)@).push((name@, value@)));
    }
}

/// The lines the dashboard shows when it starts: where the ledger is, and where the
/// log is where there is one.
pub open spec fn header_lines_of(ledger_path: Seq<char>, log_path: Option<Seq<char>>) -> Seq<
    (Seq<char>, Seq<char>),
> {
    seq![("Ledger location:"@, ledger_path)] + match log_path {
        Some(log) => seq![("Log:"@, log)],
        None => Seq::empty(),
    }
}

/// The lines the dashboard shows when it starts.
pub fn header_lines(ledger_path: &str, log_path: Option<&str>) -> (res: Vec<NameValue>)
    ensures
        lines_view(res@) == header_lines_of(
            ledger_path@,
            match log_path {
                Some(l) => Some(l@),
                None => None,
            },
        ),
{
    let mut lines: Vec<NameValue> = Vec::new();
    push_line(&mut lines, "Ledger location:", String::from_str(ledger_path));
    match log_path {
        Some(log) => push_line(&mut lines, "Log:", String::from_str(log)),
        None => {},
    }
    proof {
        assert(lines_view(Seq::<NameValue>::empty()) =~= Seq::empty());
        assert(lines_view(lines@) =~= header_lines_of(
            ledger_path@,
            match log_path {
                Some(l) => Some(l@),
                None => None,
            },
        ));
    }
    lines
}

/// The dashboard of a validator whose ledger is at `ledger_path`.
#[derive(Clone, Debug)]
pub struct Dashboard {
    pub ledger_path: String,
}

impl Dashboard {
    /// A dashboard for the ledger at `ledger_path`.
    pub fn new(ledger_path: &str) -> (res: Dashboard)
        ensures
            res.ledger_path@ == ledger_path@,
    {
        Dashboard { ledger_path: String::from_str(ledger_path) }
    }
}

/// What the cluster reports of one of its nodes; the network addresses as text.
#[derive(Clone, Debug)]
pub struct ContactInfo {
    pub pubkey: String,
    pub gossip: Option<String>,
    pub tpu: Option<String>,
    pub rpc: Option<String>,
    pub version: Option<String>,
    pub shred_version: Option<u16>,
}

/// The node of the list whose public key is `identity`: the first such, or none.
pub fn get_contact_info(nodes: Vec<ContactInfo>, identity: &str) -> (res: Option<ContactInfo>)
    ensures
        res is None <==> forall|i: int| 0 <= i < nodes@.len() ==> nodes@[i].pubkey@ != identity@,
        res matches Some(c) ==> exists|i: int|
            0 <= i < nodes@.len() && nodes@[i] == c && c.pubkey@ == identity@ && forall|j: int|
                0 <= j < i ==> nodes@[j].pubkey@ != identity@,
{
    let mut i: usize = 0;
    while i < nodes.len()
        invariant
            i <= nodes@.len(),
            forall|j: int| 0 <= j < i ==> nodes@[j].pubkey@ != identity@,
        decreases nodes@.len() - i,
    {
        if text_eq(nodes[i].pubkey.as_str(), identity) {
            let ghost all = nodes@;
            let mut nodes = nodes;
            let found = nodes.remove(i);
            assert(all[i as int] == found);
            return Some(found);
        }
        i = i + 1;
    }
    None
}

/// The http URL of an address.
pub open spec fn http_url(address: Seq<char>) -> Seq<char> {
    "http://"@ + address
}

/// The lines shown for the validator's node: its version (`?` where unknown), and
/// its shred version, gossip, TPU and JSON-RPC addresses where known.
pub open spec fn contact_lines_of(info: ContactInfo) -> Seq<(Seq<char>, Seq<char>)> {
    seq![
        ("Version:"@, match info.version {
            Some(v) => v@,
            None => "?"@,
        }),
    ] + (match info.shred_version {
        Some(s) => seq![("Shred Version:"@, decimal_text(s as nat))],
        None => Seq::empty(),
    }) + (match info.gossip {
        Some(g) => seq![("Gossip Address:"@, g@)],
        None => Seq::empty(),
    }) + (match info.tpu {
        Some(t) => seq![("TPU Address:"@, t@)],
        None => Seq::empty(),
    }) + (match info.rpc {
        Some(r) => seq![("JSON RPC URL:"@, http_url(r@))],
        None => Seq::empty(),
    })
}

/// The lines shown for the validator's node.
pub fn contact_info_lines(info: ContactInfo) -> (res: Vec<NameValue>)
    ensures
        lines_view(res@) == contact_lines_of(info),
{
    let mut lines: Vec<NameValue> = Vec::new();
    proof {
        assert(lines_view(lines@) =~= Seq::empty());
    }
    let version = match info.version {
        Some(v) => v,
        None => String::from_str("?"),
    };
    push_line(&mut lines, "Version:", version);
    let ghost l1 = lines_view(lines@);
    match info.shred_version {
        Some(sv) => push_line(&mut lines, "Shred Version:", crate::numeric_text::u64_to_decimal(sv as u64)),
        None => {},
    }
    let ghost l2 = lines_view(lines@);
    match info.gossip {
        Some(g) => push_line(&mut lines, "Gossip Address:", g),
        None => {},
    }
    let ghost l3 = lines_view(lines@);
    match info.tpu {
        Some(t) => push_line(&mut lines, "TPU Address:", t),
        None => {},
    }
    let ghost l4 = lines_view(lines@);
    match info.rpc {
        Some(r) => {
            let mut url = String::from_str("http://");
            url.append(r.as_str());
            push_line(&mut lines, "JSON RPC URL:", url);
        },
        None => {},
    }
    proof {
        assert(lines_view(lines@) =~= contact_lines_of(info));
    }
    lines
}

/// Whether `seg` occurs in `text` as a run of consecutive characters.
pub open spec fn holds_segment(text: Seq<char>, seg: Seq<char>) -> bool {
    exists|i: int|
        0 <= i && i + seg.len() <= text.len() && #[trigger] text.subrange(i, i + seg.len()) == seg
}

/// The snapshot part of a status line: the label, the slot in decimal (`-` where
/// there is none), and the label of the transaction count that follows.
pub open spec fn snapshot_field(slot: Option<u64>) -> Seq<char> {
    " | Snapshot Slot: "@ + match slot {
        Some(s) => decimal_text(s as nat),
        None => "-"@,
    } + " | Transactions: "@
}

/// Law: a status line begins with the time since the validator started: the whole
/// hours (all of them, however many days that makes, in at least two digits), a colon,
/// the minutes of the hour and the seconds of the minute in two digits each, with
/// colons between, and a space.
pub proof fn law_status_line_begins_with_uptime(
    stats: ValidatorStats,
    snapshot_slot: Option<u64>,
    uptime_secs: u64,
    shown_health: Seq<char>,
)
    ensures
        ({
            let line = status_text(stats, snapshot_slot, uptime_secs, shown_health);
            exists|k: int|
                #![trigger line.take(k)]
                2 <= k && k + 7 <= line.len() && all_decimal_digits(line.take(k)) && digits_value(
                    line.take(k),
                ) == uptime_secs / 3600 && line[k] == ':' && all_decimal_digits(
                    line.subrange(k + 1, k + 3),
                ) && digits_value(line.subrange(k + 1, k + 3)) == (uptime_secs / 60) % 60
                    && line[k + 3] == ':' && all_decimal_digits(line.subrange(k + 4, k + 6))
                    && digits_value(line.subrange(k + 4, k + 6)) == uptime_secs % 60 && line[k
                    + 6] == ' '
        }),
{
    let line = status_text(stats, snapshot_slot, uptime_secs, shown_health);
    let h = zero_padded_text((uptime_secs / 3600) as nat, 2);
    let m = zero_padded_text(((uptime_secs / 60) % 60) as nat, 2);
    let sec = zero_padded_text((uptime_secs % 60) as nat, 2);
    lemma_zero_padded_digits((uptime_secs / 3600) as nat, 2);
    lemma_zero_padded_digits(((uptime_secs / 60) % 60) as nat, 2);
    lemma_zero_padded_digits((uptime_secs % 60) as nat, 2);
    let u = uptime_text(uptime_secs);
    let k = h.len() as int;
    assert(u.len() == k + 7);
    assert forall|i: int| 0 <= i < u.len() implies line[i] == u[i] by {}
    assert(line.take(k) =~= h);
    assert(line.subrange(k + 1, k + 3) =~= m);
    assert(line.subrange(k + 4, k + 6) =~= sec);
    assert(line[k] == ':' && line[k + 3] == ':' && line[k + 6] == ' ');
}

/// Law: a status line shows the snapshot slot it is given, in decimal, between its
/// label and the transaction count (`-` where there is none).
pub proof fn law_status_line_shows_snapshot(
    stats: ValidatorStats,
    snapshot_slot: Option<u64>,
    uptime_secs: u64,
    shown_health: Seq<char>,
)
    ensures
        holds_segment(
            status_text(stats, snapshot_slot, uptime_secs, shown_health),
            snapshot_field(snapshot_slot),
        ),
{
    let line = status_text(stats, snapshot_slot, uptime_secs, shown_health);
    let before = uptime_text(uptime_secs) + (if stats.health@ == "ok"@ {
        Seq::<char>::empty()
    } else {
        "| "@ + shown_health + " "@
    }) + (if stats.max_retransmit_slot == 0 {
        Seq::<char>::empty()
    } else {
        "| Max Slot: "@ + decimal_text(stats.max_retransmit_slot as nat) + " "@
    }) + "| Processed Slot: "@ + decimal_text(stats.processed_slot as nat)
        + " | Confirmed Slot: "@ + decimal_text(stats.confirmed_slot as nat)
        + " | Finalized Slot: "@ + decimal_text(stats.finalized_slot as nat);
    let after = decimal_text(stats.transaction_count as nat) + " | "@ + sol_amount_text(
        stats.identity_balance,
    );
    let seg = snapshot_field(snapshot_slot);
    assert(line =~= before + seg + after);
    let i = before.len() as int;
    assert(line.subrange(i, i + seg.len()) =~= seg);
}

/// The end of a status line: the processed, confirmed and finalized slots, the
/// snapshot slot, the transaction count, each in decimal after its label, and the
/// identity's balance.
pub open spec fn status_counts(stats: ValidatorStats, snapshot_slot: Option<u64>) -> Seq<char> {
    "| Processed Slot: "@ + decimal_text(stats.processed_slot as nat) + " | Confirmed Slot: "@
        + decimal_text(stats.confirmed_slot as nat) + " | Finalized Slot: "@ + decimal_text(
        stats.finalized_slot as nat,
    ) + snapshot_field(snapshot_slot) + decimal_text(stats.transaction_count as nat) + " | "@
        + sol_amount_text(stats.identity_balance)
}

/// Law: whatever the uptime and health, a status line ends with the processed,
/// confirmed, finalized and snapshot slots, the transaction count and the balance,
/// each in its place.
pub proof fn law_status_line_ends_with_counts(
    stats: ValidatorStats,
    snapshot_slot: Option<u64>,
    uptime_secs: u64,
    shown_health: Seq<char>,
)
    ensures
        ({
            let line = status_text(stats, snapshot_slot, uptime_secs, shown_health);
            let tail = status_counts(stats, snapshot_slot);
            line.len() >= tail.len() && line.subrange(line.len() - tail.len(), line.len() as int)
                == tail
        }),
{
    let line = status_text(stats, snapshot_slot, uptime_secs, shown_health);
    let before = uptime_text(uptime_secs) + (if stats.health@ == "ok"@ {
        Seq::<char>::empty()
    } else {
        "| "@ + shown_health + " "@
    }) + (if stats.max_retransmit_slot == 0 {
        Seq::<char>::empty()
    } else {
        "| Max Slot: "@ + decimal_text(stats.max_retransmit_slot as nat) + " "@
    });
    let tail = status_counts(stats, snapshot_slot);
    assert(line =~= before + tail);
    assert(line.subrange(line.len() - tail.len(), line.len() as int) =~= tail);
}

/// Law: between the uptime and the counts, a status line shows the health (as the
/// terminal shows it) only where it is not `ok`, then the highest retransmit slot only
/// where it is not zero, and nothing else.
pub proof fn law_status_line_middle(
    stats: ValidatorStats,
    snapshot_slot: Option<u64>,
    uptime_secs: u64,
    shown_health: Seq<char>,
)
    ensures
        ({
            let line = status_text(stats, snapshot_slot, uptime_secs, shown_health);
            let start = zero_padded_text((uptime_secs / 3600) as nat, 2).len() as int + 7;
            let end = line.len() - status_counts(stats, snapshot_slot).len();
            let health_part = if stats.health@ == "ok"@ {
                Seq::<char>::empty()
            } else {
                "| "@ + shown_health + " "@
            };
            let max_part = if stats.max_retransmit_slot == 0 {
                Seq::<char>::empty()
            } else {
                "| Max Slot: "@ + decimal_text(stats.max_retransmit_slot as nat) + " "@
            };
            start <= end && line.subrange(start, end) == health_part + max_part
        }),
{
    let line = status_text(stats, snapshot_slot, uptime_secs, shown_health);
    lemma_zero_padded_digits(((uptime_secs / 60) % 60) as nat, 2);
    lemma_zero_padded_digits((uptime_secs % 60) as nat, 2);
    let u = uptime_text(uptime_secs);
    assert(u.len() == zero_padded_text((uptime_secs / 3600) as nat, 2).len() + 7);
    let health_part = if stats.health@ == "ok"@ {
        Seq::<char>::empty()
    } else {
        "| "@ + shown_health + " "@
    };
    let max_part = if stats.max_retransmit_slot == 0 {
        Seq::<char>::empty()
    } else {
        "| Max Slot: "@ + decimal_text(stats.max_retransmit_slot as nat) + " "@
    };
    let before = u + health_part + max_part;
    let tail = status_counts(stats, snapshot_slot);
    assert(line =~= before + tail);
    let mid = health_part + max_part;
    assert(before =~= u + mid);
    assert forall|i: int| 0 <= i < mid.len() implies line[u.len() + i] == mid[i] by {
        assert(line[u.len() + i] == before[u.len() + i]);
    }
    assert(line.subrange(u.len() as int, before.len() as int) =~= mid);
}

/// Law: an amount in SOL is written `◎`, the whole SOL in decimal, a point, and the
/// lamports left over in exactly nine digits.
pub proof fn law_sol_amount_text(lamports: u64)
    ensures
        ({
            let t = sol_amount_text(lamports);
            exists|k: int|
                #![trigger t.subrange(1, k)]
                2 <= k && k + 10 == t.len() && t[0] == '◎' && all_decimal_digits(
                    t.subrange(1, k),
                ) && digits_value(t.subrange(1, k)) == lamports / LAMPORTS_PER_SOL && t[k] == '.'
                    && all_decimal_digits(t.subrange(k + 1, k + 10)) && digits_value(
                    t.subrange(k + 1, k + 10),
                ) == lamports % LAMPORTS_PER_SOL
        }),
{
    let t = sol_amount_text(lamports);
    let whole = decimal_text((lamports / LAMPORTS_PER_SOL) as nat);
    let rest = zero_padded_text((lamports % LAMPORTS_PER_SOL) as nat, 9);
    crate::numeric_text::lemma_decimal_text_digits((lamports / LAMPORTS_PER_SOL) as nat);
    lemma_zero_padded_digits((lamports % LAMPORTS_PER_SOL) as nat, 9);
    assert(pow10(9) == 1_000_000_000) by {
        reveal_with_fuel(pow10, 10);
    }
    lemma_zero_padded_len((lamports % LAMPORTS_PER_SOL) as nat, 9);
    let k: int = whole.len() as int + 1;
    assert(t.subrange(1, k) =~= whole);
    assert(t.subrange(k + 1, k + 10) =~= rest);
    assert(t[k] == '.');
}

/// Law: the health text is `ok` only for a healthy validator; for one behind the
/// cluster it ends in ` slots behind`, and what comes before reads back, in decimal,
/// as the number of slots.
pub proof fn law_health_text(probe: HealthProbe)
    ensures
        health_text_of(probe) == "ok"@ <==> probe is Healthy,
        probe matches HealthProbe::SlotsBehind(n) ==> ({
            let t = health_text_of(probe);
            let suffix = " slots behind"@;
            &&& t.len() > suffix.len()
            &&& t.subrange(t.len() - suffix.len(), t.len() as int) == suffix
            &&& parsed_u64(t.take(t.len() - suffix.len())) == Some(n)
        }),
{
    reveal_strlit("ok");
    reveal_strlit(" slots behind");
    reveal_strlit("health unknown");
    match probe {
        HealthProbe::SlotsBehind(n) => {
            crate::numeric_text::lemma_decimal_text_digits(n as nat);
            law_decimal_round_trip(n);
            let d = decimal_text(n as nat);
            let t = health_text_of(probe);
            let suffix = " slots behind"@;
            assert(t == d + suffix);
            assert(t.subrange(t.len() - suffix.len(), t.len() as int) =~= suffix);
            assert(t.take(t.len() - suffix.len()) =~= d);
            assert(t.len() != "ok"@.len());
        },
        HealthProbe::Unknown => {
            assert("health unknown"@.len() != "ok"@.len());
        },
        HealthProbe::Healthy => {},
    }
}

/// Whether a list of header lines holds the line `name`, `value`.
pub open spec fn has_line(
    lines: Seq<(Seq<char>, Seq<char>)>,
    name: Seq<char>,
    value: Seq<char>,
) -> bool {
    exists|i: int| 0 <= i < lines.len() && #[trigger] lines[i] == (name, value)
}

/// Whether a list of header lines has a line named `name`.
pub open spec fn has_name(lines: Seq<(Seq<char>, Seq<char>)>, name: Seq<char>) -> bool {
    exists|i: int| 0 <= i < lines.len() && #[trigger] lines[i].0 == name
}

/// A line is in two lists joined exactly when it is in one of them.
proof fn lemma_lines_join(a: Seq<(Seq<char>, Seq<char>)>, b: Seq<(Seq<char>, Seq<char>)>, name: Seq<char>, value: Seq<char>)
    ensures
        has_line(a + b, name, value) <==> has_line(a, name, value) || has_line(b, name, value),
        has_name(a + b, name) <==> has_name(a, name) || has_name(b, name),
{
    if has_line(a + b, name, value) {
        let i = choose|i: int| 0 <= i < (a + b).len() && #[trigger] (a + b)[i] == (name, value);
        if i < a.len() {
            assert(a[i] == (name, value));
        } else {
            assert(b[i - a.len()] == (name, value));
        }
    }
    if has_line(a, name, value) {
        let i = choose|i: int| 0 <= i < a.len() && #[trigger] a[i] == (name, value);
        assert((a + b)[i] == (name, value));
    }
    if has_line(b, name, value) {
        let i = choose|i: int| 0 <= i < b.len() && #[trigger] b[i] == (name, value);
        assert((a + b)[i + a.len()] == (name, value));
    }
    if has_name(a + b, name) {
        let i = choose|i: int| 0 <= i < (a + b).len() && #[trigger] (a + b)[i].0 == name;
        if i < a.len() {
            assert(a[i].0 == name);
        } else {
            assert(b[i - a.len()].0 == name);
        }
    }
    if has_name(a, name) {
        let i = choose|i: int| 0 <= i < a.len() && #[trigger] a[i].0 == name;
        assert((a + b)[i].0 == name);
    }
    if has_name(b, name) {
        let i = choose|i: int| 0 <= i < b.len() && #[trigger] b[i].0 == name;
        assert((a + b)[i + a.len()].0 == name);
    }
}

/// A one-line list holds only its line.
proof fn lemma_one_line(x: (Seq<char>, Seq<char>), name: Seq<char>, value: Seq<char>)
    ensures
        has_line(seq![x], name, value) <==> x == (name, value),
        has_name(seq![x], name) <==> x.0 == name,
        !has_line(Seq::empty(), name, value),
        !has_name(Seq::empty(), name),
{
    if x == (name, value) {
        assert(seq![x][0] == (name, value));
    }
    if x.0 == name {
        assert(seq![x][0].0 == name);
    }
}

/// Whether the node lines show the optional field `field` under `name` exactly as
/// given: a line `name`, `v` for the value `v` the field has, and no line of that
/// name where it has none.
pub open spec fn shows_field(
    lines: Seq<(Seq<char>, Seq<char>)>,
    name: Seq<char>,
    field: Option<Seq<char>>,
) -> bool {
    &&& (forall|v: Seq<char>| has_line(lines, name, v) <==> field == Some(v))
    &&& (has_name(lines, name) <==> field is Some)
}

/// The number of fields of a node's contact information that are known.
pub open spec fn known_fields(info: ContactInfo) -> nat {
    (if info.shred_version is Some { 1nat } else { 0nat }) + (if info.gossip is Some {
        1nat
    } else {
        0nat
    }) + (if info.tpu is Some { 1nat } else { 0nat }) + (if info.rpc is Some {
        1nat
    } else {
        0nat
    })
}

/// The shred version as decimal text, where known.
pub open spec fn shred_text(info: ContactInfo) -> Option<Seq<char>> {
    match info.shred_version {
        Some(v) => Some(decimal_text(v as nat)),
        None => None,
    }
}

/// The JSON-RPC URL of a node, where its address is known.
pub open spec fn rpc_url(info: ContactInfo) -> Option<Seq<char>> {
    match info.rpc {
        Some(r) => Some(http_url(r@)),
        None => None,
    }
}

/// An optional text field, as text.
pub open spec fn option_text(field: Option<String>) -> Option<Seq<char>> {
    match field {
        Some(s) => Some(s@),
        None => None,
    }
}

/// Which lines other than the version line the node lines hold.
proof fn lemma_contact_line(info: ContactInfo, name: Seq<char>, v: Seq<char>)
    requires
        name != "Version:"@,
    ensures
        has_line(contact_lines_of(info), name, v) <==> ((name == "Shred Version:"@ && shred_text(
            info,
        ) == Some(v)) || (name == "Gossip Address:"@ && option_text(info.gossip) == Some(v)) || (
        name == "TPU Address:"@ && option_text(info.tpu) == Some(v)) || (name == "JSON RPC URL:"@
            && rpc_url(info) == Some(v))),
        has_name(contact_lines_of(info), name) <==> ((name == "Shred Version:"@
            && info.shred_version is Some) || (name == "Gossip Address:"@ && info.gossip is Some)
            || (name == "TPU Address:"@ && info.tpu is Some) || (name == "JSON RPC URL:"@
            && info.rpc is Some)),
{
    let lines = contact_lines_of(info);
    let version_line = seq![
        ("Version:"@, match info.version {
            Some(v) => v@,
            None => "?"@,
        }),
    ];
    let shred_lines: Seq<(Seq<char>, Seq<char>)> = match info.shred_version {
        Some(s) => seq![("Shred Version:"@, decimal_text(s as nat))],
        None => Seq::empty(),
    };
    let gossip_lines: Seq<(Seq<char>, Seq<char>)> = match info.gossip {
        Some(g) => seq![("Gossip Address:"@, g@)],
        None => Seq::empty(),
    };
    let tpu_lines: Seq<(Seq<char>, Seq<char>)> = match info.tpu {
        Some(t) => seq![("TPU Address:"@, t@)],
        None => Seq::empty(),
    };
    let rpc_lines: Seq<(Seq<char>, Seq<char>)> = match info.rpc {
        Some(r) => seq![("JSON RPC URL:"@, http_url(r@))],
        None => Seq::empty(),
    };
    let a = version_line;
    let b = a + shred_lines;
    let c = b + gossip_lines;
    let d = c + tpu_lines;
    assert(lines == d + rpc_lines);
    lemma_lines_join(d, rpc_lines, name, v);
    lemma_lines_join(c, tpu_lines, name, v);
    lemma_lines_join(b, gossip_lines, name, v);
    lemma_lines_join(a, shred_lines, name, v);
    lemma_one_line(a[0], name, v);
    assert(a =~= seq![a[0]]);
    match info.shred_version {
        Some(s) => lemma_one_line(("Shred Version:"@, decimal_text(s as nat)), name, v),
        None => lemma_one_line(("Shred Version:"@, Seq::empty()), name, v),
    }
    match info.gossip {
        Some(g) => lemma_one_line(("Gossip Address:"@, g@), name, v),
        None => lemma_one_line(("Gossip Address:"@, Seq::empty()), name, v),
    }
    match info.tpu {
        Some(t) => lemma_one_line(("TPU Address:"@, t@), name, v),
        None => lemma_one_line(("TPU Address:"@, Seq::empty()), name, v),
    }
    match info.rpc {
        Some(r) => lemma_one_line(("JSON RPC URL:"@, http_url(r@)), name, v),
        None => lemma_one_line(("JSON RPC URL:"@, Seq::empty()), name, v),
    }
}

/// Law: each line shown for the validator's node depends on its own field alone:
/// the version always (`?` where unknown); the shred version (read back in decimal),
/// gossip and TPU addresses and JSON-RPC URL (`http://` and the address) each exactly
/// when that field is known, whatever the others are; and no other line.
pub proof fn law_contact_lines(info: ContactInfo)
    ensures
        ({
            let lines = contact_lines_of(info);
            &&& lines.len() == 1 + known_fields(info)
            &&& lines[0] == ("Version:"@, match info.version {
                Some(v) => v@,
                None => "?"@,
            })
            &&& shows_field(lines, "Gossip Address:"@, option_text(info.gossip))
            &&& shows_field(lines, "TPU Address:"@, option_text(info.tpu))
            &&& shows_field(lines, "JSON RPC URL:"@, rpc_url(info))
            &&& shows_field(lines, "Shred Version:"@, shred_text(info))
            &&& (forall|v: Seq<char>|
                has_line(lines, "Shred Version:"@, v) ==> info.shred_version is Some && parsed_u64(
                    v,
                ) == Some(info.shred_version->0 as u64))
        }),
{
    reveal_strlit("Version:");
    reveal_strlit("Shred Version:");
    reveal_strlit("Gossip Address:");
    reveal_strlit("TPU Address:");
    reveal_strlit("JSON RPC URL:");
    let lines = contact_lines_of(info);
    assert("Version:"@.len() == 8);
    assert("Shred Version:"@.len() == 14);
    assert("Gossip Address:"@.len() == 15);
    assert("TPU Address:"@.len() == 12);
    assert("JSON RPC URL:"@.len() == 13);
    let e = Seq::<char>::empty();
    lemma_contact_line(info, "Gossip Address:"@, e);
    lemma_contact_line(info, "TPU Address:"@, e);
    lemma_contact_line(info, "JSON RPC URL:"@, e);
    lemma_contact_line(info, "Shred Version:"@, e);
    assert forall|v: Seq<char>| #[trigger] has_line(lines, "Gossip Address:"@, v) <==> option_text(
        info.gossip,
    ) == Some(v) by {
        lemma_contact_line(info, "Gossip Address:"@, v);
    }
    assert forall|v: Seq<char>| #[trigger] has_line(lines, "TPU Address:"@, v) <==> option_text(
        info.tpu,
    ) == Some(v) by {
        lemma_contact_line(info, "TPU Address:"@, v);
    }
    assert forall|v: Seq<char>| #[trigger] has_line(lines, "JSON RPC URL:"@, v) <==> rpc_url(
        info,
    ) == Some(v) by {
        lemma_contact_line(info, "JSON RPC URL:"@, v);
    }
    assert forall|v: Seq<char>| #[trigger] has_line(lines, "Shred Version:"@, v) <==> shred_text(
        info,
    ) == Some(v) by {
        lemma_contact_line(info, "Shred Version:"@, v);
    }
    assert forall|v: Seq<char>|
        has_line(lines, "Shred Version:"@, v) implies info.shred_version is Some && parsed_u64(v)
        == Some(info.shred_version->0 as u64) by {
        if let Some(s) = info.shred_version {
            law_decimal_round_trip(s as u64);
        }
    }
}

/// Law: the dashboard's header has the ledger's location on its first line, and a
/// second and last line with the log's location exactly when a log is given, whatever
/// the paths are.
pub proof fn law_header_lines(ledger_path: Seq<char>, log_path: Option<Seq<char>>)
    ensures
        ({
            let lines = header_lines_of(ledger_path, log_path);
            &&& lines[0] == ("Ledger location:"@, ledger_path)
            &&& lines.len() == if log_path is Some { 2nat } else { 1nat }
            &&& log_path matches Some(l) ==> lines[1] == ("Log:"@, l)
        }),
{
}

} // verus!
