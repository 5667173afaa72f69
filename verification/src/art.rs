//! Art selection: a pure, case-sensitive mapping from a distro identifier to
//! a fixed multi-line ASCII art block. Unrecognized identifiers, the sentinel
//! `"unknown"` among them, map to the empty block.

use vstd::prelude::*;
use crate::strutil::str_eq;

verus! {

/// A distro identifier the selector has art for.
pub open spec fn is_supported_distro(d: Seq<char>) -> bool {
    d == "ubuntu"@ || d == "arch"@ || d == "fedora"@
}

/// The art block for a distro identifier: a fixed text per supported
/// identifier, the empty text for every other.
pub open spec fn spec_art(d: Seq<char>) -> Seq<char> {
    if d == "ubuntu"@ {
        (r#"
          _
         | |
         | |===( )   //////
         |_|   |||  | o o|
                ||| ( c  )
                 ||| \= /
                  ||||||||
                   ||||||
    "#)@
    } else if d == "arch"@ {
        (r#"
            /\\
           /  \\
          /\\   \\
         /      \\
        /   ,,   \\
       /   |  |  -\\
      /_-''    ''-_\\
    "#)@
    } else if d == "fedora"@ {
        (r#"
         _______
       /        /\
      /        /  \
     /        /    \
    /________/______\
    \        \      /
     \        \    /
      \        \  /
       \________\/
    "#)@
    } else {
        ""@
    }
}

/// Select the art block that matches the distro identifier exactly.
pub fn get_ascii_art(distro: &str) -> (r: &'static str)
    ensures
        r@ == spec_art(distro@),
{
    if str_eq(distro, "ubuntu") {
        r#"
          _
         | |
         | |===( )   //////
         |_|   |||  | o o|
                ||| ( c  )
                 ||| \= /
                  ||||||||
                   ||||||
    "#
    } else if str_eq(distro, "arch") {
        r#"
            /\\
           /  \\
          /\\   \\
         /      \\
        /   ,,   \\
       /   |  |  -\\
      /_-''    ''-_\\
    "#
    } else if str_eq(distro, "fedora") {
        r#"
         _______
       /        /\
      /        /  \
     /        /    \
    /________/______\
    \        \      /
     \        \    /
      \        \  /
       \________\/
    "#
    } else {
        ""
    }
}

/// Every supported distro identifier maps to a non-empty art block, and every
/// other identifier maps to the empty block.
pub proof fn lemma_art_selector(d: Seq<char>)
    ensures
        is_supported_distro(d) ==> spec_art(d).len() > 0,
        !is_supported_distro(d) ==> spec_art(d) == Seq::<char>::empty(),
{
    reveal_strlit("
          _
         | |
         | |===( )   //////
         |_|   |||  | o o|
                ||| ( c  )
                 ||| \\= /
                  ||||||||
                   ||||||
    ");
    reveal_strlit("
            /\\\\
           /  \\\\
          /\\\\   \\\\
         /      \\\\
        /   ,,   \\\\
       /   |  |  -\\\\
      /_-''    ''-_\\\\
    ");
    reveal_strlit("
         _______
       /        /\\
      /        /  \\
     /        /    \\
    /________/______\\
    \\        \\      /
     \\        \\    /
      \\        \\  /
       \\________\\/
    ");
    reveal_strlit("");
    assert(""@ =~= Seq::<char>::empty());
}

} // verus!
