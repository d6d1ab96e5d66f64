//! The texts that the bot sends.

use vstd::prelude::*;

verus! {

/// The setup instructions, in MarkdownV2.
pub const INSTRUCTIONS_MSG: &'static str = "
*AddToNotionBot*
I am your addToNotionBot I can add resources directly into your Notion page
To know which Notion account and page to add to, I need some information from you

__Preparation__
Step 1:
I need an \"Internal Integration Token\"
Go to [My Integrations](https://www\\.notion\\.so/my\\-integrations) and create an Integration
I will ask for the \"Internal Integration Token\" shortly

Step 2:
This Bot creates pages in a Database, you need to Create a *\\(full\\-page\\) database with the properties: _Name, URL, Tags, Image_*

Step 3:
Go to the page you want to use as a WebDump, go to settings 
Then you need to add the connection to the connection you created in Step 1
Next, you have to send me the page link so I know where to add your content

These steps are explained again here:
[Create a Notion Integration](https://developers\\.notion\\.com/docs/create\\-a\\-notion\\-integration)

// __Help__
// Use the command `/help` to show this message
";

pub const TOKEN_PROMPT: &'static str = "Please pass me the Notion integration token";

pub const DATABASE_ID_PROMPT: &'static str = "Please send the database id now";

pub const PLAIN_TEXT_PROMPT: &'static str = "Send me plain text.";

/// Asks for the confirmation, in MarkdownV2.
pub const CONFIRM_PROMPT: &'static str = "Please confirm the following data with _yes_";

pub const SETUP_COMPLETE_MSG: &'static str = "You can now start feeding your Notion Webdump!";

pub const TRY_AGAIN_MSG: &'static str = "Try again";

pub const RESET_MSG: &'static str = "Try again by sending a message to activate the setup";

/// The word that confirms, looked for in the lower-cased answer.
pub const CONFIRMATION_WORD: &'static str = "yes";

pub const REPORT_TOKEN_LABEL: &'static str = "Integration Token: ";

pub const REPORT_DATABASE_LABEL: &'static str = "\nDatabase ID: ";

/// What a created page's link starts with; the page id follows.
pub const CREATED_PAGE_PREFIX: &'static str = "Created page https://notion.so/";

/// What starts the reply to a message whose page was not created.
pub const FAILURE_PREFIX: &'static str = "Could not create page in Notion: ";

pub const MISSING_FIELDS_PREFIX: &'static str =
    "Database does not have all required fields: Name, Image, URL, Tags, found: ";

pub const DATABASE_NOT_FOUND_MSG: &'static str = "database does not exist";

pub const INVALID_PATTERN_MSG: &'static str = "the search pattern is not valid";

pub const MISSING_GROUP_MSG: &'static str = "a match lacks the group to read";

pub const UPLOAD_FAILED_MSG: &'static str = "Error uploading image";

/// What the download URL of a file of the chat transport starts with; the
/// bot's token, a slash and the file's path follow.
pub const FILE_URL_PREFIX: &'static str = "https://api.telegram.org/file/bot";

} // verus!
