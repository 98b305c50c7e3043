//! The client's configuration file: on each start, every setting that the
//! file does not mention yet is appended to it as a commented-out example,
//! and a missing file is created with a header first. Nothing already in the
//! file is changed.
use vstd::prelude::*;
use crate::text::{contains, contains_str, occurs_at};

verus! {

/// The number of settings the file documents.
pub const SETTING_COUNT: usize = 7;

/// The first lines of a newly created file.
pub open spec fn file_header() -> Seq<char> {
    "# AI Voice Client Configuration\n# Automatically generated configuration file.\n\n"@
}

/// Setting `i`: its name, and the commented block that documents it.
pub open spec fn setting(i: int) -> (Seq<char>, Seq<char>) {
    if i == 0 {
        ("SERVER_HOST"@, "# Remote AI Voice Server IP/Hostname.\n# SERVER_HOST=\"192.168.0.205\"\n"@)
    } else if i == 1 {
        ("SERVER_PORT"@, "# Remote AI Voice Server Port.\n# SERVER_PORT=\"3000\"\n"@)
    } else if i == 2 {
        (
            "AI_VOICE_SERVER_WS_URL"@,
            "# Full WebSocket URL (optional, overrides SERVER_HOST/SERVER_PORT).\n# AI_VOICE_SERVER_WS_URL=ws://192.168.0.205:3000/stream\n"@,
        )
    } else if i == 3 {
        (
            "AI_VOICE_OUTPUT_MODE"@,
            "# Options: \"type\" (keyboard injection) or \"clipboard\" (wl-copy).\n# AI_VOICE_OUTPUT_MODE=type\n"@,
        )
    } else if i == 4 {
        (
            "AI_VOICE_ADMIN_API_KEY"@,
            "# Admin secret key for remote server management (model swapping, restarts).\n# AI_VOICE_ADMIN_API_KEY=your-secret-key\n"@,
        )
    } else if i == 5 {
        ("AI_VOICE_TYPING_DELAY"@, "# Delay in ms between keystrokes.\n# AI_VOICE_TYPING_DELAY=2\n"@)
    } else {
        (
            "AI_VOICE_TYPING_HOLD"@,
            "# Hold time in ms for virtual keystrokes.\n# AI_VOICE_TYPING_HOLD=2\n"@,
        )
    }
}

/// The blocks, each followed by an empty line, of the first `n` settings
/// that `content` does not mention, in order.
pub open spec fn missing_blocks(content: Seq<char>, n: int) -> Seq<char>
    decreases n,
{
    if n <= 0 {
        Seq::<char>::empty()
    } else {
        let rest = missing_blocks(content, n - 1);
        let (key, block) = setting(n - 1);
        if contains(content, key) {
            rest
        } else {
            rest + block + "\n"@
        }
    }
}

/// The text that the file starts from: its content, or the header when
/// there is no file.
pub open spec fn base_content(existing: Option<Seq<char>>) -> Seq<char> {
    match existing {
        Some(c) => c,
        None => file_header(),
    }
}

/// What to append to the file (`None`: leave it alone). A missing file is
/// written with the header and every block; an existing one gets the blocks
/// of the settings it does not mention, if there are any.
pub open spec fn file_update(existing: Option<Seq<char>>) -> Option<Seq<char>> {
    match existing {
        None => Some(file_header() + missing_blocks(file_header(), SETTING_COUNT as int)),
        Some(c) => {
            let b = missing_blocks(c, SETTING_COUNT as int);
            if b.len() == 0 {
                None
            } else {
                Some(b)
            }
        },
    }
}

/// The file's content after the update.
pub open spec fn content_after(existing: Option<Seq<char>>) -> Seq<char> {
    base_content(existing) + missing_blocks(base_content(existing), SETTING_COUNT as int)
}

fn setting_text(i: usize) -> (r: (&'static str, &'static str))
    requires
        i < SETTING_COUNT,
    ensures
        (r.0@, r.1@) == setting(i as int),
{
    if i == 0 {
        ("SERVER_HOST", "# Remote AI Voice Server IP/Hostname.\n# SERVER_HOST=\"192.168.0.205\"\n")
    } else if i == 1 {
        ("SERVER_PORT", "# Remote AI Voice Server Port.\n# SERVER_PORT=\"3000\"\n")
    } else if i == 2 {
        (
            "AI_VOICE_SERVER_WS_URL",
            "# Full WebSocket URL (optional, overrides SERVER_HOST/SERVER_PORT).\n# AI_VOICE_SERVER_WS_URL=ws://192.168.0.205:3000/stream\n",
        )
    } else if i == 3 {
        (
            "AI_VOICE_OUTPUT_MODE",
            "# Options: \"type\" (keyboard injection) or \"clipboard\" (wl-copy).\n# AI_VOICE_OUTPUT_MODE=type\n",
        )
    } else if i == 4 {
        (
            "AI_VOICE_ADMIN_API_KEY",
            "# Admin secret key for remote server management (model swapping, restarts).\n# AI_VOICE_ADMIN_API_KEY=your-secret-key\n",
        )
    } else if i == 5 {
        ("AI_VOICE_TYPING_DELAY", "# Delay in ms between keystrokes.\n# AI_VOICE_TYPING_DELAY=2\n")
    } else {
        ("AI_VOICE_TYPING_HOLD", "# Hold time in ms for virtual keystrokes.\n# AI_VOICE_TYPING_HOLD=2\n")
    }
}

fn blocks_missing_from(content: &str) -> (b: String)
    ensures
        b@ == missing_blocks(content@, SETTING_COUNT as int),
{
    let mut out = String::new();
    let mut i: usize = 0;
    while i < SETTING_COUNT
        invariant
            i <= SETTING_COUNT,
            out@ == missing_blocks(content@, i as int),
        decreases SETTING_COUNT - i,
    {
        let (key, block) = setting_text(i);
        if !contains_str(content, key) {
            out.append(block);
            out.append("\n");
        }
        i = i + 1;
    }
    out
}

/// What to append to the configuration file, given its content (`None`
/// when there is no file); `None` means that the file is left alone.
pub fn config_file_update(existing: &Option<String>) -> (r: Option<String>)
    ensures
        crate::text::opt_chars(r) == file_update(crate::text::opt_chars(*existing)),
{
    match existing {
        None => {
            let header = "# AI Voice Client Configuration\n# Automatically generated configuration file.\n\n";
            let blocks = blocks_missing_from(header);
            let mut text = header.to_owned();
            text.append(blocks.as_str());
            Some(text)
        },
        Some(c) => {
            let blocks = blocks_missing_from(c.as_str());
            if blocks.as_str().is_empty() {
                None
            } else {
                Some(blocks)
            }
        },
    }
}

// ---------------------------------------------------------------------------
// Laws
// ---------------------------------------------------------------------------

proof fn lemma_contains_extend(a: Seq<char>, b: Seq<char>, key: Seq<char>)
    ensures
        contains(a, key) ==> contains(a + b, key),
        contains(b, key) ==> contains(a + b, key),
{
    if contains(a, key) {
        let i = choose|i: int| occurs_at(a, key, i);
        assert((a + b).subrange(i, i + key.len()) =~= a.subrange(i, i + key.len()));
        assert(occurs_at(a + b, key, i));
    }
    if contains(b, key) {
        let i = choose|i: int| occurs_at(b, key, i);
        let j = a.len() + i;
        assert((a + b).subrange(j, j + key.len()) =~= b.subrange(i, i + key.len()));
        assert(occurs_at(a + b, key, j));
    }
}

proof fn lemma_block_names_its_setting(i: int)
    requires
        0 <= i < SETTING_COUNT,
    ensures
        contains(setting(i).1, setting(i).0),
{
    let (key, block) = setting(i);
    if i == 0 {
        reveal_strlit("SERVER_HOST");
        reveal_strlit("# Remote AI Voice Server IP/Hostname.\n# SERVER_HOST=\"192.168.0.205\"\n");
        assert(block.subrange(40, 40 + key.len() as int) =~= key);
        assert(occurs_at(block, key, 40));
    } else if i == 1 {
        reveal_strlit("SERVER_PORT");
        reveal_strlit("# Remote AI Voice Server Port.\n# SERVER_PORT=\"3000\"\n");
        assert(block.subrange(33, 33 + key.len() as int) =~= key);
        assert(occurs_at(block, key, 33));
    } else if i == 2 {
        reveal_strlit("AI_VOICE_SERVER_WS_URL");
        reveal_strlit(
            "# Full WebSocket URL (optional, overrides SERVER_HOST/SERVER_PORT).\n# AI_VOICE_SERVER_WS_URL=ws://192.168.0.205:3000/stream\n",
        );
        assert(block.subrange(70, 70 + key.len() as int) =~= key);
        assert(occurs_at(block, key, 70));
    } else if i == 3 {
        reveal_strlit("AI_VOICE_OUTPUT_MODE");
        reveal_strlit(
            "# Options: \"type\" (keyboard injection) or \"clipboard\" (wl-copy).\n# AI_VOICE_OUTPUT_MODE=type\n",
        );
        assert(block.subrange(67, 67 + key.len() as int) =~= key);
        assert(occurs_at(block, key, 67));
    } else if i == 4 {
        reveal_strlit("AI_VOICE_ADMIN_API_KEY");
        reveal_strlit(
            "# Admin secret key for remote server management (model swapping, restarts).\n# AI_VOICE_ADMIN_API_KEY=your-secret-key\n",
        );
        assert(block.subrange(78, 78 + key.len() as int) =~= key);
        assert(occurs_at(block, key, 78));
    } else if i == 5 {
        reveal_strlit("AI_VOICE_TYPING_DELAY");
        reveal_strlit("# Delay in ms between keystrokes.\n# AI_VOICE_TYPING_DELAY=2\n");
        assert(block.subrange(36, 36 + key.len() as int) =~= key);
        assert(occurs_at(block, key, 36));
    } else {
        reveal_strlit("AI_VOICE_TYPING_HOLD");
        reveal_strlit("# Hold time in ms for virtual keystrokes.\n# AI_VOICE_TYPING_HOLD=2\n");
        assert(block.subrange(44, 44 + key.len() as int) =~= key);
        assert(occurs_at(block, key, 44));
    }
}

/// Once the first `n` missing blocks are appended, the content mentions
/// each of the first `n` settings.
proof fn lemma_blocks_cover(c: Seq<char>, n: int, k: int)
    requires
        0 <= k < n <= SETTING_COUNT,
    ensures
        contains(c + missing_blocks(c, n), setting(k).0),
    decreases n,
{
    let rest = missing_blocks(c, n - 1);
    let (key, block) = setting(n - 1);
    if k < n - 1 {
        lemma_blocks_cover(c, n - 1, k);
        if !contains(c, key) {
            lemma_contains_extend(c + rest, block + "\n"@, setting(k).0);
            assert(c + (rest + block + "\n"@) =~= (c + rest) + (block + "\n"@));
        }
    } else {
        if contains(c, key) {
            lemma_contains_extend(c, rest, key);
        } else {
            lemma_block_names_its_setting(k);
            lemma_contains_extend(block, "\n"@, key);
            lemma_contains_extend(c + rest, block + "\n"@, key);
            assert(c + (rest + block + "\n"@) =~= (c + rest) + (block + "\n"@));
        }
    }
}

proof fn lemma_nothing_missing(c: Seq<char>, n: int)
    requires
        0 <= n <= SETTING_COUNT,
        forall|k: int| 0 <= k < n ==> contains(c, #[trigger] setting(k).0),
    ensures
        missing_blocks(c, n) == Seq::<char>::empty(),
    decreases n,
{
    if n > 0 {
        lemma_nothing_missing(c, n - 1);
        assert(contains(c, setting(n - 1).0));
    }
}

/// The update settles at once: after it the file mentions every setting,
/// so the next start appends nothing and leaves the file alone.
pub proof fn law_update_is_idempotent(existing: Option<Seq<char>>)
    ensures
        forall|k: int| 0 <= k < SETTING_COUNT ==> contains(content_after(existing), #[trigger] setting(k).0),
        file_update(Some(content_after(existing))) is None,
{
    let c = base_content(existing);
    assert forall|k: int| 0 <= k < SETTING_COUNT implies contains(
        content_after(existing),
        #[trigger] setting(k).0,
    ) by {
        lemma_blocks_cover(c, SETTING_COUNT as int, k);
    }
    lemma_nothing_missing(content_after(existing), SETTING_COUNT as int);
}

/// The update only appends: what the file held stays as it was, in front.
pub proof fn law_update_only_appends(existing: Seq<char>)
    ensures
        file_update(Some(existing)) matches Some(extra) ==> content_after(Some(existing)) == existing
            + extra,
        file_update(Some(existing)) is None ==> content_after(Some(existing)) == existing,
{
}

} // verus!
