//! The account of one upload request: which files were ready, which were skipped or failed and
//! why, in words, and what the delivery achieved.

use vstd::prelude::*;
use vstd::string::*;

use crate::compression::Reason;
use crate::delivery::{assets_in, unit_count, Delivery};

verus! {

/// The character that writes a decimal digit.
pub open spec fn digit_char(digit: nat) -> char {
    if digit == 0 {
        '0'
    } else if digit == 1 {
        '1'
    } else if digit == 2 {
        '2'
    } else if digit == 3 {
        '3'
    } else if digit == 4 {
        '4'
    } else if digit == 5 {
        '5'
    } else if digit == 6 {
        '6'
    } else if digit == 7 {
        '7'
    } else if digit == 8 {
        '8'
    } else {
        '9'
    }
}

/// A number in decimal, without sign or leading zeros.
pub open spec fn decimal_digits(number: nat) -> Seq<char>
    decreases number,
{
    if number < 10 {
        seq![digit_char(number)]
    } else {
        decimal_digits(number / 10).push(digit_char(number % 10))
    }
}

/// Why a file was left out, in words. The budget is named in whole mebibytes, rounded down.
pub open spec fn described(reason: Reason, extension: Seq<char>, max_size: usize) -> Seq<char> {
    match reason {
        Reason::UnsupportedFormat => "Unsupported image format: "@ + extension,
        Reason::IoOrDecodeError => "Image could not be read or decoded"@,
        Reason::ExceedsAfterCompression => "Image exceeds size limit even after compression ("@
            + decimal_digits((max_size / 1024 / 1024) as nat) + " MB limit)"@,
    }
}

/// What is said of a send that failed: which message it was, where messages carry batches,
/// and what the transport reported.
pub open spec fn failure_described(send_individually: bool, batch: usize, detail: Seq<char>) -> Seq<
    char,
> {
    if send_individually {
        "Failed to send message: "@ + detail
    } else {
        "Failed to send message batch "@ + decimal_digits(batch as nat) + ": "@ + detail
    }
}

/// One line of the skipped or failed list: the file, then the reason.
pub open spec fn entry(source: Seq<char>, detail: Seq<char>) -> Seq<char> {
    source + ": "@ + detail
}

/// A file over budget after every transformation is skipped: that is the policy at work, not
/// a defect. Every other reason is an error.
pub open spec fn is_skip(reason: Reason) -> bool {
    reason == Reason::ExceedsAfterCompression
}

fn digit_text(digit: usize) -> (text: &'static str)
    requires
        digit < 10,
    ensures
        text@ == seq![digit_char(digit as nat)],
{
    proof {
        reveal_strlit("0");
        reveal_strlit("1");
        reveal_strlit("2");
        reveal_strlit("3");
        reveal_strlit("4");
        reveal_strlit("5");
        reveal_strlit("6");
        reveal_strlit("7");
        reveal_strlit("8");
        reveal_strlit("9");
    }
    let text = if digit == 0 {
        "0"
    } else if digit == 1 {
        "1"
    } else if digit == 2 {
        "2"
    } else if digit == 3 {
        "3"
    } else if digit == 4 {
        "4"
    } else if digit == 5 {
        "5"
    } else if digit == 6 {
        "6"
    } else if digit == 7 {
        "7"
    } else if digit == 8 {
        "8"
    } else {
        "9"
    };
    assert(text@ =~= seq![digit_char(digit as nat)]);
    text
}

/// Writes a number in decimal.
pub fn decimal(number: usize) -> (text: String)
    ensures
        text@ == decimal_digits(number as nat),
    decreases number,
{
    if number < 10 {
        String::from_str(digit_text(number))
    } else {
        let mut text = decimal(number / 10);
        text.append(digit_text(number % 10));
        assert(text@ =~= decimal_digits(number as nat));
        text
    }
}

/// Says in words why a file was left out.
pub fn describe(reason: Reason, extension: &str, max_size: usize) -> (text: String)
    ensures
        text@ == described(reason, extension@, max_size),
{
    match reason {
        Reason::UnsupportedFormat => {
            let mut text = String::from_str("Unsupported image format: ");
            text.append(extension);
            text
        },
        Reason::IoOrDecodeError => String::from_str("Image could not be read or decoded"),
        Reason::ExceedsAfterCompression => {
            let mut text = String::from_str("Image exceeds size limit even after compression (");
            let limit = decimal(max_size / 1024 / 1024);
            text.append(limit.as_str());
            text.append(" MB limit)");
            text
        },
    }
}

/// Says in words that the send of message number `batch` (counted from one) failed.
pub fn failure_text(send_individually: bool, batch: usize, detail: &str) -> (text: String)
    ensures
        text@ == failure_described(send_individually, batch, detail@),
{
    if send_individually {
        let mut text = String::from_str("Failed to send message: ");
        text.append(detail);
        text
    } else {
        let mut text = String::from_str("Failed to send message batch ");
        let number = decimal(batch);
        text.append(number.as_str());
        text.append(": ");
        text.append(detail);
        text
    }
}

/// The files of one request, sorted as they come out of the compression engine.
pub struct Intake {
    /// The files to deliver, in the order they were accepted.
    pub ready: Vec<String>,
    /// One line for each file that stayed over budget.
    pub skipped: Vec<String>,
    /// One line for each file that could not be processed.
    pub errors: Vec<String>,
}

impl Intake {
    /// An intake nothing has come into yet.
    pub fn new() -> (intake: Intake)
        ensures
            intake.ready@.len() == 0,
            intake.skipped@.len() == 0,
            intake.errors@.len() == 0,
    {
        Intake { ready: Vec::new(), skipped: Vec::new(), errors: Vec::new() }
    }

    /// Takes in a file that is within budget: the source itself where it was unchanged, the
    /// replacement where it was transformed.
    pub fn accept(&mut self, path: String)
        ensures
            final(self).ready@ == old(self).ready@.push(path),
            final(self).skipped == old(self).skipped,
            final(self).errors == old(self).errors,
    {
        self.ready.push(path);
    }

    /// Notes a file that is left out. It is listed as skipped where the reason is that it
    /// stayed over budget, and as an error for every other reason.
    pub fn reject(&mut self, source: &str, reason: Reason, detail: &str)
        ensures
            final(self).ready == old(self).ready,
            is_skip(reason) ==> final(self).errors == old(self).errors
                && final(self).skipped.deep_view() == old(self).skipped.deep_view().push(
                entry(source@, detail@),
            ),
            !is_skip(reason) ==> final(self).skipped == old(self).skipped
                && final(self).errors.deep_view() == old(self).errors.deep_view().push(
                entry(source@, detail@),
            ),
    {
        let mut line = String::from_str(source);
        line.append(": ");
        line.append(detail);
        match reason {
            Reason::ExceedsAfterCompression => {
                self.skipped.push(line);
                assert(self.skipped.deep_view() =~= old(self).skipped.deep_view().push(
                    entry(source@, detail@),
                ));
            },
            _ => {
                self.errors.push(line);
                assert(self.errors.deep_view() =~= old(self).errors.deep_view().push(
                    entry(source@, detail@),
                ));
            },
        }
    }
}

/// What the caller of an upload request gets back.
pub struct SendImagesResponse {
    /// Every ready file was delivered, and there was at least one.
    pub success: bool,
    /// The identifier of every message delivered, in sending order.
    pub message_ids: Vec<String>,
    pub skipped: Vec<String>,
    pub errors: Vec<String>,
    /// The number of messages delivered.
    pub batches_sent: usize,
    /// The number of files in the messages delivered.
    pub total_images: usize,
}

/// Draws up the response from the books of the delivery and the two lists of the intake.
///
/// A delivery that went through reports as many batches as the batching arithmetic gives and
/// every ready file as sent. One that failed part-way reports what went out before the failure.
pub fn report(delivery: Delivery, skipped: Vec<String>, errors: Vec<String>) -> (response:
    SendImagesResponse)
    ensures
        response.success == delivery@.complete(),
        response.message_ids@ == delivery@.message_ids,
        response.skipped == skipped,
        response.errors == errors,
        response.batches_sent == delivery@.message_ids.len(),
        response.total_images == assets_in(
            delivery.assets().len() as int,
            delivery@.message_ids.len() as int,
            delivery.individually(),
        ),
        response.success ==> response.batches_sent == unit_count(
            delivery.assets().len() as int,
            delivery.individually(),
        ) && response.total_images == delivery.assets().len() && response.total_images > 0,
{
    let success = delivery.is_complete();
    let batches_sent = delivery.batches_sent();
    let total_images = delivery.images_sent();
    let message_ids = delivery.into_message_ids();
    SendImagesResponse { success, message_ids, skipped, errors, batches_sent, total_images }
}

} // verus!
