//! Wi-Fi firmware flash protocol: the fixed parameters, blob padding,
//! progress messages and the order of the flash sequence.
//!
//! The bike exposes a Wi-Fi AP during firmware update mode. Flashing
//! happens over raw TCP sockets: port 7 takes console commands, port 777
//! the `.fwb` blob, port 877 the ESP-TOP binary.

use vstd::prelude::*;

use crate::text::{dec, push_dec};

verus! {

/// The bike's address on its own access point.
pub const BIKE_IP: &'static str = "192.168.167.1";
/// Console port: text commands.
pub const PORT_CONSOLE: u16 = 7;
/// Blob transfer port.
pub const PORT_BLOB: u16 = 777;
/// ESP-TOP binary port.
pub const PORT_ESP_TOP: u16 = 877;
/// Connection timeout for console commands, in seconds.
pub const CONSOLE_TIMEOUT_SECS: u64 = 10;
/// Connection and write timeout for the blob, in seconds.
pub const BLOB_TIMEOUT_SECS: u64 = 30;
/// Connection and write timeout for the ESP-TOP binary, in seconds.
pub const ESP_TOP_TIMEOUT_SECS: u64 = 20;
/// How long the ESP needs to reboot after its binary, in seconds.
pub const ESP_REBOOT_WAIT_SECS: u64 = 20;
/// The flash block size: blobs are padded to it and sent in chunks of it.
pub const FLASH_BLOCK_SIZE: usize = 4096;

/// How many `0xFF` bytes pad `len` bytes to a block boundary.
pub open spec fn pad_len(len: nat) -> nat {
    if len % 4096 == 0 { 0 } else { (4096 - len % 4096) as nat }
}

/// `data` padded with `0xFF` up to the next multiple of 4096 bytes
/// (unchanged when already aligned).
pub open spec fn padded(data: Seq<u8>) -> Seq<u8> {
    data + Seq::new(pad_len(data.len()), |i: int| 0xFFu8)
}

/// Pad `data` to a 4096-byte boundary by filling with `0xFF`.
pub fn pad_to_block(data: &[u8]) -> (buf: Vec<u8>)
    requires
        data@.len() <= isize::MAX,
    ensures
        buf@ == padded(data@),
{
    let mut buf = vstd::slice::slice_to_vec(data);
    let ghost start = buf@;
    let mut added: usize = 0;
    let target = pad_len_exec(data.len());
    while added < target
        invariant
            start == data@,
            target == pad_len(data@.len() as nat),
            target < 4096,
            added <= target,
            data@.len() <= isize::MAX,
            buf@ =~= start + Seq::new(added as nat, |i: int| 0xFFu8),
        decreases target - added,
    {
        buf.push(0xFF);
        added = added + 1;
    }
    buf
}

fn pad_len_exec(len: usize) -> (n: usize)
    ensures
        n == pad_len(len as nat),
        n < 4096,
{
    let r = len % FLASH_BLOCK_SIZE;
    if r == 0 { 0 } else { FLASH_BLOCK_SIZE - r }
}

/// Padding lands on a block boundary, keeps the data as its prefix, adds
/// less than a block, and padding an already padded blob changes nothing.
pub proof fn lemma_padding(data: Seq<u8>)
    ensures
        padded(data).len() % 4096 == 0,
        data.len() <= padded(data).len() < data.len() + 4096,
        padded(data).subrange(0, data.len() as int) == data,
        forall|i: int| data.len() <= i < padded(data).len() ==> #[trigger] padded(data)[i] == 0xFF,
        padded(padded(data)) == padded(data),
{
    let p = padded(data);
    assert(p.subrange(0, data.len() as int) =~= data);
    assert(p.len() % 4096 == 0);
    assert(pad_len(p.len()) == 0);
    assert(padded(p) =~= p);
}

/// Progress updates emitted during a flash operation.
#[derive(Debug, Clone)]
pub enum FlashProgress {
    EnteringFlashMenu,
    SendingEspTop { bytes_sent: usize, total: usize },
    WaitingForEspReboot,
    TransferringBlob { bytes_sent: usize, total: usize },
    ReloadingBlob,
    ExitingMenu,
    Done,
    Failed(String),
}

/// The abstract value of a [`FlashProgress`].
pub ghost enum FlashProgressView {
    EnteringFlashMenu,
    SendingEspTop { bytes_sent: usize, total: usize },
    WaitingForEspReboot,
    TransferringBlob { bytes_sent: usize, total: usize },
    ReloadingBlob,
    ExitingMenu,
    Done,
    Failed(Seq<char>),
}

impl View for FlashProgress {
    type V = FlashProgressView;

    open spec fn view(&self) -> FlashProgressView {
        match self {
            FlashProgress::EnteringFlashMenu => FlashProgressView::EnteringFlashMenu,
            FlashProgress::SendingEspTop { bytes_sent, total } => FlashProgressView::SendingEspTop {
                bytes_sent: *bytes_sent,
                total: *total,
            },
            FlashProgress::WaitingForEspReboot => FlashProgressView::WaitingForEspReboot,
            FlashProgress::TransferringBlob { bytes_sent, total } =>
                FlashProgressView::TransferringBlob { bytes_sent: *bytes_sent, total: *total },
            FlashProgress::ReloadingBlob => FlashProgressView::ReloadingBlob,
            FlashProgress::ExitingMenu => FlashProgressView::ExitingMenu,
            FlashProgress::Done => FlashProgressView::Done,
            FlashProgress::Failed(msg) => FlashProgressView::Failed(msg@),
        }
    }
}

/// The percentage of a transfer: `sent * 100 / total`, 0 for an empty one.
pub open spec fn percent(sent: nat, total: nat) -> nat {
    if total > 0 { (sent * 100) / total } else { 0 }
}

/// `"{pct}% ({sent}/{total})"`.
pub open spec fn transfer_text(sent: nat, total: nat) -> Seq<char> {
    dec(percent(sent, total)) + "% ("@ + dec(sent) + "/"@ + dec(total) + ")"@
}

/// The message shown for a progress update.
pub open spec fn progress_text(p: FlashProgressView) -> Seq<char> {
    match p {
        FlashProgressView::EnteringFlashMenu => "Entering flash menu..."@,
        FlashProgressView::SendingEspTop { bytes_sent, total } => "Sending ESP-TOP binary... "@
            + transfer_text(bytes_sent as nat, total as nat),
        FlashProgressView::WaitingForEspReboot => "Waiting for ESP reboot (20s)..."@,
        FlashProgressView::TransferringBlob { bytes_sent, total } => "Transferring blob... "@
            + transfer_text(bytes_sent as nat, total as nat),
        FlashProgressView::ReloadingBlob => "Reloading blob..."@,
        FlashProgressView::ExitingMenu => "Exiting flash menu..."@,
        FlashProgressView::Done => "Flash complete."@,
        FlashProgressView::Failed(msg) => "Flash failed: "@ + msg,
    }
}

fn push_transfer(s: &mut String, sent: usize, total: usize)
    ensures
        final(s)@ == old(s)@ + transfer_text(sent as nat, total as nat),
{
    let pct: u128 = if total > 0 { (sent as u128 * 100) / total as u128 } else { 0 };
    assert(pct == percent(sent as nat, total as nat));
    push_dec(s, pct);
    s.append("% (");
    push_dec(s, sent as u128);
    s.append("/");
    push_dec(s, total as u128);
    s.append(")");
    assert(final(s)@ =~= old(s)@ + transfer_text(sent as nat, total as nat));
}

impl FlashProgress {
    /// The message shown for this progress update.
    pub fn describe(&self) -> (text: String)
        ensures
            text@ == progress_text(self@),
    {
        match self {
            FlashProgress::EnteringFlashMenu => String::from_str("Entering flash menu..."),
            FlashProgress::SendingEspTop { bytes_sent, total } => {
                let mut s = String::from_str("Sending ESP-TOP binary... ");
                push_transfer(&mut s, *bytes_sent, *total);
                s
            },
            FlashProgress::WaitingForEspReboot => String::from_str(
                "Waiting for ESP reboot (20s)...",
            ),
            FlashProgress::TransferringBlob { bytes_sent, total } => {
                let mut s = String::from_str("Transferring blob... ");
                push_transfer(&mut s, *bytes_sent, *total);
                s
            },
            FlashProgress::ReloadingBlob => String::from_str("Reloading blob..."),
            FlashProgress::ExitingMenu => String::from_str("Exiting flash menu..."),
            FlashProgress::Done => String::from_str("Flash complete."),
            FlashProgress::Failed(msg) => {
                let mut s = String::from_str("Flash failed: ");
                s.append(msg.as_str());
                s
            },
        }
    }
}

/// A text command on the console port.
#[derive(Debug, Clone, Copy, PartialEq, Eq)]
pub enum ConsoleCommand {
    /// `"a"`: enter the flash menu.
    EnterFlashMenu,
    /// `"reload-blob"`: load the transferred blob.
    ReloadBlob,
    /// `"x"`: exit the flash menu.
    ExitFlashMenu,
}

/// The text sent for a console command.
pub open spec fn command_text(c: ConsoleCommand) -> Seq<char> {
    match c {
        ConsoleCommand::EnterFlashMenu => "a"@,
        ConsoleCommand::ReloadBlob => "reload-blob"@,
        ConsoleCommand::ExitFlashMenu => "x"@,
    }
}

impl ConsoleCommand {
    /// The text sent for this command (a newline follows it on the wire).
    pub fn text(&self) -> (t: &'static str)
        ensures
            t@ == command_text(*self),
    {
        match self {
            ConsoleCommand::EnterFlashMenu => "a",
            ConsoleCommand::ReloadBlob => "reload-blob",
            ConsoleCommand::ExitFlashMenu => "x",
        }
    }
}

/// One step of the flash sequence.
#[derive(Debug, Clone)]
pub enum FlashStep {
    /// Report progress to the caller.
    Report(FlashProgress),
    /// Send a command on the console port.
    Console(ConsoleCommand),
    /// Send the ESP-TOP binary on its port, in blocks, reporting progress.
    SendEspTop,
    /// Wait for the ESP to reboot.
    WaitForEspReboot,
    /// Send the padded blob on its port, in blocks, reporting progress.
    SendBlob,
}

/// The abstract value of a [`FlashStep`].
pub ghost enum FlashStepView {
    Report(FlashProgressView),
    Console(ConsoleCommand),
    SendEspTop,
    WaitForEspReboot,
    SendBlob,
}

impl View for FlashStep {
    type V = FlashStepView;

    open spec fn view(&self) -> FlashStepView {
        match self {
            FlashStep::Report(p) => FlashStepView::Report(p@),
            FlashStep::Console(c) => FlashStepView::Console(*c),
            FlashStep::SendEspTop => FlashStepView::SendEspTop,
            FlashStep::WaitForEspReboot => FlashStepView::WaitForEspReboot,
            FlashStep::SendBlob => FlashStepView::SendBlob,
        }
    }
}

/// The end of the block sent after the first `sent` of `total` bytes: the
/// payload goes out in blocks of [`FLASH_BLOCK_SIZE`] bytes, the last one
/// shorter, and progress is reported after each. `None` once all is sent.
pub fn next_block_end(sent: usize, total: usize) -> (end: Option<usize>)
    ensures
        sent >= total ==> end is None,
        sent < total ==> end == Some(
            if total - sent <= FLASH_BLOCK_SIZE { total } else { (sent + FLASH_BLOCK_SIZE) as usize },
        ),
{
    if sent >= total {
        None
    } else if total - sent <= FLASH_BLOCK_SIZE {
        Some(total)
    } else {
        Some(sent + FLASH_BLOCK_SIZE)
    }
}

/// Why a flash cannot start.
#[derive(Debug, Clone, Copy, PartialEq, Eq)]
pub enum FlashError {
    /// Neither an ESP-TOP binary nor a blob was given.
    NothingToFlash,
}

/// The full flash sequence for an optional ESP-TOP binary of `esp_top`
/// bytes and an optional blob of `blob` bytes:
/// 1. enter the flash menu (`"a"`);
/// 2. with an ESP-TOP binary: send it, then wait for the ESP to reboot;
/// 3. with a blob: send it padded to 4096 bytes, then `"reload-blob"`;
/// 4. exit the flash menu (`"x"`) and report completion.
pub open spec fn flash_sequence(esp_top: Option<usize>, blob: Option<usize>) -> Seq<FlashStepView> {
    let enter = seq![
        FlashStepView::Report(FlashProgressView::EnteringFlashMenu),
        FlashStepView::Console(ConsoleCommand::EnterFlashMenu),
    ];
    let esp = match esp_top {
        Some(n) => seq![
            FlashStepView::Report(FlashProgressView::SendingEspTop { bytes_sent: 0, total: n }),
            FlashStepView::SendEspTop,
            FlashStepView::Report(FlashProgressView::WaitingForEspReboot),
            FlashStepView::WaitForEspReboot,
        ],
        None => Seq::empty(),
    };
    let blob_steps = match blob {
        Some(n) => seq![
            FlashStepView::Report(
                FlashProgressView::TransferringBlob {
                    bytes_sent: 0,
                    total: (n + pad_len(n as nat)) as usize,
                },
            ),
            FlashStepView::SendBlob,
            FlashStepView::Report(FlashProgressView::ReloadingBlob),
            FlashStepView::Console(ConsoleCommand::ReloadBlob),
        ],
        None => Seq::empty(),
    };
    let exit = seq![
        FlashStepView::Report(FlashProgressView::ExitingMenu),
        FlashStepView::Console(ConsoleCommand::ExitFlashMenu),
        FlashStepView::Report(FlashProgressView::Done),
    ];
    enter + esp + blob_steps + exit
}

/// The views of a list of steps.
pub open spec fn steps_view(steps: Seq<FlashStep>) -> Seq<FlashStepView> {
    steps.map_values(|s: FlashStep| s@)
}

/// Plan the firmware flash for the given payload sizes: an error when there
/// is nothing to flash, otherwise the steps of [`flash_sequence`].
pub fn flash_plan(esp_top_len: Option<usize>, blob_len: Option<usize>) -> (plan: Result<
    Vec<FlashStep>,
    FlashError,
>)
    requires
        blob_len matches Some(n) ==> n <= isize::MAX,
    ensures
        (esp_top_len is None && blob_len is None) ==> plan == Err::<Vec<FlashStep>, FlashError>(
            FlashError::NothingToFlash,
        ),
        !(esp_top_len is None && blob_len is None) ==> (plan matches Ok(steps) && steps_view(
            steps@,
        ) == flash_sequence(esp_top_len, blob_len)),
{
    if esp_top_len.is_none() && blob_len.is_none() {
        return Err(FlashError::NothingToFlash);
    }
    let mut steps: Vec<FlashStep> = Vec::new();
    steps.push(FlashStep::Report(FlashProgress::EnteringFlashMenu));
    steps.push(FlashStep::Console(ConsoleCommand::EnterFlashMenu));
    if let Some(n) = esp_top_len {
        steps.push(FlashStep::Report(FlashProgress::SendingEspTop { bytes_sent: 0, total: n }));
        steps.push(FlashStep::SendEspTop);
        steps.push(FlashStep::Report(FlashProgress::WaitingForEspReboot));
        steps.push(FlashStep::WaitForEspReboot);
    }
    if let Some(n) = blob_len {
        let total = n + pad_len_exec(n);
        steps.push(FlashStep::Report(FlashProgress::TransferringBlob { bytes_sent: 0, total }));
        steps.push(FlashStep::SendBlob);
        steps.push(FlashStep::Report(FlashProgress::ReloadingBlob));
        steps.push(FlashStep::Console(ConsoleCommand::ReloadBlob));
    }
    steps.push(FlashStep::Report(FlashProgress::ExitingMenu));
    steps.push(FlashStep::Console(ConsoleCommand::ExitFlashMenu));
    steps.push(FlashStep::Report(FlashProgress::Done));
    assert(steps_view(steps@) =~= flash_sequence(esp_top_len, blob_len));
    Ok(steps)
}

} // verus!
