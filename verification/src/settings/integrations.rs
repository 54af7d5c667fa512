//! How other programs are told about the meeting database.
use vstd::prelude::*;

verus! {

/// What is known of the server that other programs start.
#[derive(Debug, Clone, PartialEq, Eq)]
pub struct McpServerInfo {
    pub binary_path: Option<String>,
    pub binary_found: bool,
    pub db_path: String,
    pub db_exists: bool,
    pub db_is_default: bool,
}

/// The command that registers the server with a client; the database is named
/// unless it is where the server looks by itself.
pub open spec fn command_text(
    client: Seq<char>,
    binary: Seq<char>,
    db: Seq<char>,
    db_is_default: bool,
) -> Seq<char> {
    if db_is_default {
        client + " mcp add parley -- "@ + binary
    } else {
        client + " mcp add parley -- "@ + binary + " --db "@ + db
    }
}

/// The command that registers the server with a client.
pub fn claude_code_snippet(client: &str, binary_path: &str, db_path: &str, db_is_default: bool) -> (r:
    String)
    ensures
        r@ == command_text(client@, binary_path@, db_path@, db_is_default),
{
    let mut out = client.to_owned();
    out.append(" mcp add parley -- ");
    out.append(binary_path);
    if !db_is_default {
        out.append(" --db ");
        out.append(db_path);
    }
    assert(out@ =~= command_text(client@, binary_path@, db_path@, db_is_default));
    out
}

/// What stands before the server's path.
pub const JSON_HEAD: &'static str =
    "{\n  \"mcpServers\": {\n    \"parley\": {\n      \"command\": \"";

/// What stands between the server's path and that of the database.
pub const JSON_ARGS: &'static str = "\",\n      \"args\": [\"--db\", \"";

/// What stands behind the path of the database.
pub const JSON_ARGS_TAIL: &'static str = "\"]\n    }\n  }\n}";

/// What stands behind the server's path where no database is named.
pub const JSON_TAIL: &'static str = "\"\n    }\n  }\n}";

/// The JSON that registers the server; the database is named unless it is where
/// the server looks by itself.
pub open spec fn json_text(binary: Seq<char>, db: Seq<char>, db_is_default: bool) -> Seq<char> {
    if db_is_default {
        JSON_HEAD@ + binary + JSON_TAIL@
    } else {
        JSON_HEAD@ + binary + JSON_ARGS@ + db + JSON_ARGS_TAIL@
    }
}

/// The JSON that registers the server.
pub fn json_snippet(binary_path: &str, db_path: &str, db_is_default: bool) -> (r: String)
    ensures
        r@ == json_text(binary_path@, db_path@, db_is_default),
{
    let mut out = JSON_HEAD.to_owned();
    out.append(binary_path);
    if db_is_default {
        out.append(JSON_TAIL);
    } else {
        out.append(JSON_ARGS);
        out.append(db_path);
        out.append(JSON_ARGS_TAIL);
    }
    assert(out@ =~= json_text(binary_path@, db_path@, db_is_default));
    out
}

/// What the page shows of the server.
#[derive(Debug, Clone, PartialEq, Eq)]
pub struct McpCard {
    pub db_line: String,
    pub binary_line: String,
    /// Whether there is a file to show.
    pub can_show: bool,
    pub command: String,
    pub json: String,
}

/// Where the server is, for a program that is to be told.
pub open spec fn shown_binary(info: McpServerInfo) -> Seq<char> {
    match info.binary_path {
        Some(p) => p@,
        None => "/absolute/path/to/parley-mcp"@,
    }
}

/// Whether a card shows what is known of the server.
pub open spec fn shows_info(card: McpCard, client: Seq<char>, info: McpServerInfo) -> bool {
    &&& card.db_line@ == (if info.db_is_default {
        "Database: default location (no --db flag needed)"@
    } else {
        "Database: "@ + info.db_path@
    }) + if info.db_exists {
        ""@
    } else {
        " (not created yet)"@
    }
    &&& card.binary_line@ == match info.binary_path {
        Some(path) => if info.binary_found {
            "Binary found: "@ + path@
        } else {
            "Binary not found at last known path: "@ + path@
        },
        None => "Binary not found — build parley-mcp or set $PARLEY_MCP_BIN"@,
    }
    &&& card.can_show == (info.binary_path is Some && info.binary_found)
    &&& card.command@ == command_text(
        client,
        shown_binary(info),
        info.db_path@,
        info.db_is_default,
    )
    &&& card.json@ == json_text(shown_binary(info), info.db_path@, info.db_is_default)
}

/// What the page shows of the server, for a client of the given name.
pub fn mcp_card(client: &str, info: &McpServerInfo) -> (r: McpCard)
    ensures
        shows_info(r, client@, *info),
{
    let mut db_line = if info.db_is_default {
        "Database: default location (no --db flag needed)".to_owned()
    } else {
        let mut out = "Database: ".to_owned();
        out.append(&info.db_path);
        out
    };
    db_line.append(
        if info.db_exists {
            ""
        } else {
            " (not created yet)"
        },
    );
    let binary_line = match &info.binary_path {
        Some(path) => {
            let mut out = if info.binary_found {
                "Binary found: ".to_owned()
            } else {
                "Binary not found at last known path: ".to_owned()
            };
            out.append(path);
            out
        },
        None => "Binary not found — build parley-mcp or set $PARLEY_MCP_BIN".to_owned(),
    };
    let shown = match &info.binary_path {
        Some(path) => path.clone(),
        None => "/absolute/path/to/parley-mcp".to_owned(),
    };
    McpCard {
        db_line,
        binary_line,
        can_show: info.binary_path.is_some() && info.binary_found,
        command: claude_code_snippet(client, &shown, &info.db_path, info.db_is_default),
        json: json_snippet(&shown, &info.db_path, info.db_is_default),
    }
}

} // verus!
