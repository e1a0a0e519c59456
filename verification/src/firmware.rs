//! Firmware management: what is asked of the external flashing tool, and
//! what its answers mean. Running the tool is left to the caller.

use vstd::prelude::*;
use vstd::string::StringExecFns;
use crate::chars::{contains, decimal_text, format_unsigned, includes, slice_of, to_chars, to_text};
use crate::connection::Connection;
use crate::error::PowerCliError;
use crate::framing::{decode_lossy, lossy_text};
use crate::reply::{find_line_end, line_end};

verus! {

/// What one run of the flashing tool came to.
#[derive(Debug, Clone, PartialEq, Eq)]
pub struct ToolOutput {
    /// Whether the tool reported success.
    pub success: bool,
    pub stdout: String,
    pub stderr: String,
}

impl ToolOutput {
    /// The outcome of a run, with the tool's output decoded lossily.
    pub fn from_bytes(success: bool, stdout: &[u8], stderr: &[u8]) -> (r: ToolOutput)
        ensures
            r.success == success,
            r.stdout@ == lossy_text(stdout@),
            r.stderr@ == lossy_text(stderr@),
    {
        ToolOutput { success, stdout: decode_lossy(stdout), stderr: decode_lossy(stderr) }
    }
}

/// What the flashing tool can be asked for.
#[derive(Debug, Clone, PartialEq, Eq)]
pub enum ToolRequest {
    ImageList,
    Echo,
    Upload(String),
    Reset,
    TaskStat,
}

/// The words of a list of strings.
pub open spec fn words_of(v: Seq<String>) -> Seq<Seq<char>> {
    Seq::new(v.len(), |i: int| v[i]@)
}

/// The words that name a request to the tool.
pub open spec fn request_words(request: ToolRequest) -> Seq<Seq<char>> {
    match request {
        ToolRequest::ImageList => seq!["image"@, "list"@],
        ToolRequest::Echo => seq!["echo"@, "bootloader_test"@],
        ToolRequest::Upload(path) => seq!["image"@, "upload"@, path@],
        ToolRequest::Reset => seq!["reset"@],
        ToolRequest::TaskStat => seq!["taskstat"@],
    }
}

/// The arguments of a run of the tool: how to reach the device, then the
/// request.
pub open spec fn tool_words(connstring: Seq<char>, request: ToolRequest) -> Seq<Seq<char>> {
    seq!["--conntype"@, "serial"@, "--connstring"@, connstring] + request_words(request)
}

fn push_word(list: &mut Vec<String>, word: &str)
    ensures
        words_of(final(list)@) == words_of(old(list)@).push(word@),
{
    list.push(String::from_str(word));
    proof {
        assert(words_of(list@) =~= words_of(old(list)@).push(word@));
    }
}

/// The line of a reply that a reader sees first: up to the first line
/// break, without a carriage return just before it.
pub open spec fn first_text_line(s: Seq<char>) -> Seq<char> {
    let k = line_end(s, 0);
    let line = s.subrange(0, k);
    if k < s.len() && line.len() > 0 && line.last() == '\r' {
        line.drop_last()
    } else {
        line
    }
}

/// What the first run after an update says of the firmware.
pub open spec fn version_notice(response: Seq<char>) -> Seq<char> {
    "New firmware version: "@ + (if response.len() == 0 {
        "Unknown"@
    } else {
        first_text_line(response)
    })
}

/// The report on an update, one line for each step.
pub open spec fn report_text(
    reset: Option<Seq<char>>,
    upload: Seq<char>,
    final_reset: Seq<char>,
    verification: Option<Seq<char>>,
) -> Seq<char> {
    (match reset {
        Some(r) => "✅ Reset: "@ + r,
        None => "⏭️  Reset: Skipped (assuming bootloader mode)"@,
    }) + "\n✅ Upload: "@ + upload + "\n✅ Final Reset: "@ + final_reset + (match verification {
        Some(v) => "\n✅ Verification: "@ + v,
        None => "\n⚠️  Verification: Could not verify new firmware (may still be booting)"@,
    })
}

/// The steps of an update.
#[derive(Debug, Clone, Copy, PartialEq, Eq, Structural)]
pub enum UpdateStep {
    /// Reset the controller into its bootloader.
    Reset,
    /// Upload the image.
    Upload,
    /// Reset the controller to run the new firmware.
    FinalReset,
    /// Wait for the firmware to boot.
    BootWait,
    /// Ask the new firmware for its version.
    Verify,
}

/// How long the firmware is given to boot, in seconds.
pub const BOOT_WAIT_SECS: u64 = 15;

/// The steps of an update, in their order: the reset into the bootloader
/// first, unless it is skipped, then upload, final reset, wait and check.
pub open spec fn update_steps(skip_reset: bool) -> Seq<UpdateStep> {
    if skip_reset {
        seq![UpdateStep::Upload, UpdateStep::FinalReset, UpdateStep::BootWait, UpdateStep::Verify]
    } else {
        seq![
            UpdateStep::Reset,
            UpdateStep::Upload,
            UpdateStep::FinalReset,
            UpdateStep::BootWait,
            UpdateStep::Verify,
        ]
    }
}

impl UpdateStep {
    /// Whether the update ends where this step fails: it goes on only after
    /// a check of the new firmware that found no answer.
    pub open spec fn spec_is_required(self) -> bool {
        self != UpdateStep::Verify
    }

    /// Whether the update ends where this step fails.
    pub fn is_required(self) -> (b: bool)
        ensures
            b == self.spec_is_required(),
    {
        match self {
            UpdateStep::Verify => false,
            _ => true,
        }
    }
}

/// Firmware management over one link.
#[derive(Debug, Clone, PartialEq, Eq)]
pub struct FirmwareManager {
    pub connection: Connection,
    pub mcumgr_port: String,
    pub mcumgr_baud: u32,
}

impl FirmwareManager {
    /// The serial port at which the tool reaches the device.
    pub open spec fn port(&self) -> Seq<char> {
        self.mcumgr_port@
    }

    /// The baud rate at which the tool reaches the device.
    pub open spec fn baud(&self) -> u32 {
        self.mcumgr_baud
    }

    /// A manager that reaches the device at `port`, or at `/dev/ttyLP2`
    /// where none is given.
    pub fn new(connection: Connection, port: Option<String>, baud: u32) -> (r: FirmwareManager)
        ensures
            r.connection == connection,
            r.baud() == baud,
            r.port() == (match port {
                Some(p) => p@,
                None => "/dev/ttyLP2"@,
            }),
    {
        let mcumgr_port = match port {
            Some(p) => p,
            None => String::from_str("/dev/ttyLP2"),
        };
        FirmwareManager { connection, mcumgr_port, mcumgr_baud: baud }
    }

    /// How the tool is told to reach the device: `<port>,baud=<rate>`.
    pub fn connstring(&self) -> (r: String)
        ensures
            r@ == self.port() + ",baud="@ + decimal_text(self.baud() as nat),
    {
        let digits = format_unsigned(self.mcumgr_baud as u64);
        let rate = to_text(digits.as_slice());
        self.mcumgr_port.clone().concat(",baud=").concat(rate.as_str())
    }

    /// The arguments with which the tool is run for a request.
    pub fn tool_arguments(&self, request: &ToolRequest) -> (r: Vec<String>)
        ensures
            words_of(r@) == tool_words(
                self.port() + ",baud="@ + decimal_text(self.baud() as nat),
                *request,
            ),
    {
        let mut list: Vec<String> = Vec::new();
        proof {
            assert(words_of(list@) =~= Seq::<Seq<char>>::empty());
        }
        push_word(&mut list, "--conntype");
        push_word(&mut list, "serial");
        push_word(&mut list, "--connstring");
        let how = self.connstring();
        push_word(&mut list, how.as_str());
        match request {
            ToolRequest::ImageList => {
                push_word(&mut list, "image");
                push_word(&mut list, "list");
            },
            ToolRequest::Echo => {
                push_word(&mut list, "echo");
                push_word(&mut list, "bootloader_test");
            },
            ToolRequest::Upload(path) => {
                push_word(&mut list, "image");
                push_word(&mut list, "upload");
                push_word(&mut list, path.as_str());
            },
            ToolRequest::Reset => {
                push_word(&mut list, "reset");
            },
            ToolRequest::TaskStat => {
                push_word(&mut list, "taskstat");
            },
        }
        proof {
            assert(words_of(list@) =~= tool_words(how@, *request));
        }
        list
    }

    /// The list of images that the tool printed, or the failure it reported.
    pub fn list_images(output: &ToolOutput) -> (r: Result<String, PowerCliError>)
        ensures
            output.success ==> (r matches Ok(text) && text@ == output.stdout@),
            !output.success ==> (r matches Err(PowerCliError::FirmwareError { message })
                && message@ == "mcumgr image list failed: "@ + output.stderr@),
    {
        if output.success {
            Ok(output.stdout.clone())
        } else {
            Err(
                PowerCliError::FirmwareError {
                    message: String::from_str("mcumgr image list failed: ").concat(
                        output.stderr.as_str(),
                    ),
                },
            )
        }
    }

    /// The overview of the firmware: the images, and what is known of the
    /// bootloader.
    pub fn get_info(images: &str, bootloader: &Option<String>) -> (r: String)
        ensures
            r@ == "=== Firmware Information ===\n\n--- Images ---\n"@ + images@
                + "\n--- Bootloader ---\n"@ + (match bootloader {
                Some(info) => info@,
                None => "Bootloader info not available"@,
            }),
    {
        let head = String::from_str("=== Firmware Information ===\n\n--- Images ---\n").concat(
            images,
        ).concat("\n--- Bootloader ---\n");
        match bootloader {
            Some(info) => head.concat(info.as_str()),
            None => head.concat("Bootloader info not available"),
        }
    }

    /// What a reset into the bootloader is reported as, by whether the
    /// bootloader answered afterwards.
    pub fn reset_to_bootloader(answered: bool) -> (r: &'static str)
        ensures
            r@ == (if answered {
                "PMU successfully reset to bootloader mode"@
            } else {
                "Reset command sent, PMU should be in bootloader mode"@
            }),
    {
        if answered {
            "PMU successfully reset to bootloader mode"
        } else {
            "Reset command sent, PMU should be in bootloader mode"
        }
    }

    /// Whether the bootloader answered the tool's echo.
    pub fn verify_bootloader_mode(output: &ToolOutput) -> (r: Result<String, PowerCliError>)
        ensures
            output.success ==> (r matches Ok(text) && text@ == "Bootloader responding"@),
            !output.success ==> (r matches Err(PowerCliError::FirmwareError { message })
                && message@ == "Bootloader not responding"@),
    {
        if output.success {
            Ok(String::from_str("Bootloader responding"))
        } else {
            Err(
                PowerCliError::FirmwareError {
                    message: String::from_str("Bootloader not responding"),
                },
            )
        }
    }

    /// What an upload came to; `name` is the file's name.
    pub fn mcumgr_upload(name: &str, output: &ToolOutput) -> (r: Result<String, PowerCliError>)
        ensures
            output.success ==> (r matches Ok(text) && text@ == "Firmware uploaded successfully: "@
                + name@),
            !output.success ==> (r matches Err(PowerCliError::FirmwareError { message })
                && message@ == "mcumgr upload failed: "@ + output.stderr@ + "\n"@
                + output.stdout@),
    {
        if output.success {
            Ok(String::from_str("Firmware uploaded successfully: ").concat(name))
        } else {
            Err(
                PowerCliError::FirmwareError {
                    message: String::from_str("mcumgr upload failed: ").concat(
                        output.stderr.as_str(),
                    ).concat("\n").concat(output.stdout.as_str()),
                },
            )
        }
    }

    /// Whether what the tool printed on a reset deserves a warning: anything
    /// but a timeout, which a device that resets at once brings about.
    pub fn mcumgr_reset(output: &ToolOutput) -> (warn: bool)
        ensures
            warn == (output.stderr@.len() > 0 && !contains(output.stderr@, "timeout"@)),
    {
        let text = to_chars(output.stderr.as_str());
        let word = to_chars("timeout");
        text.len() > 0 && !includes(text.as_slice(), word.as_slice())
    }

    /// What the first reply of the new firmware says of its version.
    pub fn verify_new_firmware(response: &str) -> (r: String)
        ensures
            r@ == version_notice(response@),
    {
        let text = to_chars(response);
        let head = String::from_str("New firmware version: ");
        if text.len() == 0 {
            return head.concat("Unknown");
        }
        let k = find_line_end(text.as_slice());
        let cut = if k < text.len() && k > 0 && text[k - 1] == '\r' {
            k - 1
        } else {
            k
        };
        let line = slice_of(text.as_slice(), 0, cut);
        proof {
            let whole = text@.subrange(0, k as int);
            if cut < k {
                assert(whole.drop_last() =~= text@.subrange(0, cut as int));
            }
        }
        let shown = to_text(line.as_slice());
        head.concat(shown.as_str())
    }

    /// What is known of the bootloader from the tool's task list.
    pub fn get_bootloader_info(output: &ToolOutput) -> (r: Result<String, PowerCliError>)
        ensures
            output.success ==> (r matches Ok(text) && text@ == output.stdout@),
            !output.success ==> (r matches Err(PowerCliError::FirmwareError { message })
                && message@ == "Could not get bootloader info"@),
    {
        if output.success {
            Ok(output.stdout.clone())
        } else {
            Err(
                PowerCliError::FirmwareError {
                    message: String::from_str("Could not get bootloader info"),
                },
            )
        }
    }

    /// The steps of an update, in their order.
    pub fn update_plan(skip_reset: bool) -> (r: Vec<UpdateStep>)
        ensures
            r@ == update_steps(skip_reset),
    {
        let mut plan: Vec<UpdateStep> = Vec::new();
        if !skip_reset {
            plan.push(UpdateStep::Reset);
        }
        plan.push(UpdateStep::Upload);
        plan.push(UpdateStep::FinalReset);
        plan.push(UpdateStep::BootWait);
        plan.push(UpdateStep::Verify);
        proof {
            assert(plan@ =~= update_steps(skip_reset));
        }
        plan
    }

    /// The failure of an update whose image does not exist.
    pub fn missing_image(path: &str) -> (r: PowerCliError)
        ensures
            r matches PowerCliError::FirmwareError { message } && message@
                == "Firmware file not found: "@ + path@,
    {
        PowerCliError::FirmwareError {
            message: String::from_str("Firmware file not found: ").concat(path),
        }
    }

    /// The report on an update: the reset, unless it was skipped; the
    /// upload; the final reset; and the check of the new firmware, unless it
    /// did not answer.
    pub fn upload_firmware(
        reset: &Option<String>,
        upload: &str,
        final_reset: &str,
        verification: &Option<String>,
    ) -> (r: String)
        ensures
            r@ == report_text(
                match reset {
                    Some(t) => Some(t@),
                    None => None,
                },
                upload@,
                final_reset@,
                match verification {
                    Some(t) => Some(t@),
                    None => None,
                },
            ),
    {
        let first = match reset {
            Some(t) => String::from_str("✅ Reset: ").concat(t.as_str()),
            None => String::from_str("⏭️  Reset: Skipped (assuming bootloader mode)"),
        };
        let middle = first.concat("\n✅ Upload: ").concat(upload).concat("\n✅ Final Reset: ").concat(
            final_reset,
        );
        match verification {
            Some(t) => {
                let last = String::from_str("\n✅ Verification: ").concat(t.as_str());
                proof {
                    assert(middle@ + ("\n✅ Verification: "@ + t@) =~= middle@ + last@);
                }
                middle.concat(last.as_str())
            },
            None => middle.concat(
                "\n⚠️  Verification: Could not verify new firmware (may still be booting)",
            ),
        }
    }
}

} // verus!
