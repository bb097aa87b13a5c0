//! The messages that a node prints when it starts.

use colored::Colorize;
use vstd::prelude::*;
use vstd::string::StringExecFns;

verus! {

/// `Colorize::white` of colored on `text`, read back as plain text through
/// `Deref` for `ColoredString`. Trusted: the styled string holds `text`, and
/// `Deref` hands out what it holds, without the styling.
#[verifier::external_body]
fn white(text: &str) -> (plain: String)
    ensures
        plain@ == text@,
{
    String::from(&*text.white())
}

/// `Colorize::bold` of colored on `text`, read back as plain text through
/// `Deref` for `ColoredString`. Trusted: the styled string holds `text`, and
/// `Deref` hands out what it holds, without the styling.
#[verifier::external_body]
fn bold(text: &str) -> (plain: String)
    ensures
        plain@ == text@,
{
    String::from(&*text.bold())
}

/// The emblem above the greeting.
pub const WELCOME_EMBLEM: &'static str = "

         ╦╬╬╬╬╬╦
        ╬╬╬╬╬╬╬╬╬                    ▄▄▄▄        ▄▄▄
       ╬╬╬╬╬╬╬╬╬╬╬                  ▐▓▓▓▓▌       ▓▓▓
      ╬╬╬╬╬╬╬╬╬╬╬╬╬                ▐▓▓▓▓▓▓▌      ▓▓▓     ▄▄▄▄▄▄       ▄▄▄▄▄▄
     ╬╬╬╬╬╬╬╬╬╬╬╬╬╬╬              ▐▓▓▓  ▓▓▓▌     ▓▓▓   ▄▓▓▀▀▀▀▓▓▄   ▐▓▓▓▓▓▓▓▓▌
    ╬╬╬╬╬╬╬╜ ╙╬╬╬╬╬╬╬            ▐▓▓▓▌  ▐▓▓▓▌    ▓▓▓  ▐▓▓▓▄▄▄▄▓▓▓▌ ▐▓▓▓    ▓▓▓▌
   ╬╬╬╬╬╬╣     ╠╬╬╬╬╬╬           ▓▓▓▓▓▓▓▓▓▓▓▓    ▓▓▓  ▐▓▓▀▀▀▀▀▀▀▀▘ ▐▓▓▓    ▓▓▓▌
  ╬╬╬╬╬╬╣       ╠╬╬╬╬╬╬         ▓▓▓▓▌    ▐▓▓▓▓   ▓▓▓   ▀▓▓▄▄▄▄▓▓▀   ▐▓▓▓▓▓▓▓▓▌
 ╬╬╬╬╬╬╣         ╠╬╬╬╬╬╬       ▝▀▀▀▀      ▀▀▀▀▘  ▀▀▀     ▀▀▀▀▀▀       ▀▀▀▀▀▀
╚╬╬╬╬╬╩           ╩╬╬╬╬╩


";

/// The greeting under the emblem.
pub const WELCOME_GREETING: &'static str = "👋 Welcome to Aleo! We thank you for running a node and supporting privacy.\n";

/// The notice of the calibration period.
pub const CALIBRATION_NOTICE: &'static str = "

 ==================================================================================================

                     🚧 Welcome to Aleo Testnet 3 Phase 3 - Calibration Period 🚧

 ==================================================================================================

     During the calibration period, the network will be running in limited capacity.

     This calibration period is to ensure validators are stable and ready for mainnet launch.
     During this period, the objective is to assess, adjust, and align validators' performance,
     stability, and interoperability under varying network conditions.

     There will be possibly several network resets. With each network reset, software updates will
     be performed to address potential bottlenecks, vulnerabilities, and/or inefficiencies, which
     will ensure optimal performance for the ecosystem of validators, provers, and developers.

 ==================================================================================================

    Duration:
    - Start Date: September 27, 2023
    - End Date: October 18, 2023 (subject to change)

    Participation:
    - Node operators are NOT REQUIRED to participate during this calibration period.

    Network Resets:
    - IMPORTANT: EXPECT MULTIPLE NETWORK RESETS.
    - If participating, BE PREPARED TO RESET YOUR NODE AT ANY TIME.

    Communication:
    - Stay ONLINE and MONITOR our Discord and Twitter for community updates.

    Purpose:
    - This period is STRICTLY FOR NETWORK CALIBRATION.
    - This period is NOT INTENDED for general-purpose usage by developers and provers.

    Incentives:
    - There are NO INCENTIVES during this calibration period.

 ==================================================================================================
";

/// Returns the welcome message as a string: the emblem, then the greeting.
/// The message is plain text: the styling that the parts are given on the way
/// is not part of the text that they hold.
pub fn welcome_message() -> (output: String)
    ensures
        output@ == WELCOME_EMBLEM@ + WELCOME_GREETING@,
{
    let mut output = String::new();
    let emblem = bold(white(WELCOME_EMBLEM).as_str());
    output.append(emblem.as_str());
    let greeting = bold(WELCOME_GREETING);
    output.append(greeting.as_str());
    assert(output@ =~= WELCOME_EMBLEM@ + WELCOME_GREETING@);
    output
}

/// Returns the notification message as a string.
pub fn notification_message() -> (output: String)
    ensures
        output@ == CALIBRATION_NOTICE@,
{
    let mut output = String::new();
    let notice = bold(white(CALIBRATION_NOTICE).as_str());
    output.append(notice.as_str());
    assert(output@ =~= CALIBRATION_NOTICE@);
    output
}

} // verus!
