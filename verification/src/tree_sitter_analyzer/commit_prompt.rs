//! The prompt that asks for a commit message from a diff analysis.

use vstd::prelude::*;
use crate::text::{chars_of, extend_str, extend_string, join_parts, join_seqs, to_string, views};
use crate::tree_sitter_analyzer::model::{
    AffectedNode, AffectedNodeModel, DiffAnalysis, DiffAnalysisModel, FileAnalysis,
    FileAnalysisModel,
};

verus! {

/// The smaller of two integers.
pub open spec fn min_int(a: int, b: int) -> int {
    if a < b {
        a
    } else {
        b
    }
}

/// The line of an affected element.
pub open spec fn element_line(n: AffectedNodeModel) -> Seq<char> {
    "    - "@ + n.node_type + " "@ + n.name + " ("@ + (if n.is_public {
        ""@
    } else {
        "non-"@
    }) + "public)"@
}

/// The lines of the first three affected elements.
pub open spec fn element_lines(ns: Seq<AffectedNodeModel>) -> Seq<Seq<char>> {
    ns.take(min_int(3, ns.len() as int)).map_values(|n: AffectedNodeModel| element_line(n))
}

/// The lines of one file: its path, its summary if any, and its first
/// three affected elements if any.
pub open spec fn file_prompt_lines(a: FileAnalysisModel) -> Seq<Seq<char>> {
    seq!["- File: "@ + a.path] + (match a.summary {
        Some(s) => seq!["  Summary: "@ + s],
        None => seq![],
    }) + (if a.affected_nodes.len() > 0 {
        seq!["  Affected elements:"@] + element_lines(a.affected_nodes)
    } else {
        seq![]
    })
}

/// The lines of the files, one file after another.
pub open spec fn files_prompt_lines(fas: Seq<FileAnalysisModel>) -> Seq<Seq<char>>
    decreases fas.len(),
{
    if fas.len() == 0 {
        seq![]
    } else {
        files_prompt_lines(fas.drop_last()) + file_prompt_lines(fas.last())
    }
}

/// The lines of the prompt: the request, the overall summary, the first
/// five files where there are any, and the commit syntax to follow where
/// one is configured.
pub open spec fn commit_prompt_lines(a: DiffAnalysisModel, syntax: Option<Seq<char>>) -> Seq<
    Seq<char>,
> {
    seq![
        "Generate a concise and informative commit message for the following changes:"@,
        "\nOverall summary: "@ + a.overall_summary,
    ] + (if a.file_analyses.len() > 0 {
        seq!["\nKey changes per file:"@] + files_prompt_lines(
            a.file_analyses.take(min_int(5, a.file_analyses.len() as int)),
        )
    } else {
        seq![]
    }) + (match syntax {
        Some(s) => seq!["\nAdhere to the following commit message syntax and conventions:"@, s],
        None => seq![],
    })
}

/// The prompt: its lines joined by line feeds.
pub open spec fn commit_prompt(a: DiffAnalysisModel, syntax: Option<Seq<char>>) -> Seq<char> {
    join_seqs(commit_prompt_lines(a, syntax), "\n"@)
}

/// Appends the lines of one file.
fn push_file_lines(parts: &mut Vec<Vec<char>>, a: &FileAnalysis)
    ensures
        views(final(parts)@) == views(old(parts)@) + file_prompt_lines(a@),
{
    let ghost start = views(parts@);
    let mut head: Vec<char> = Vec::new();
    extend_str(&mut head, "- File: ");
    extend_string(&mut head, &a.path);
    parts.push(head);
    assert(views(parts@) =~= start + seq!["- File: "@ + a@.path]);
    let ghost after_head = views(parts@);
    match &a.summary {
        Some(s) => {
            let mut l: Vec<char> = Vec::new();
            extend_str(&mut l, "  Summary: ");
            extend_string(&mut l, s);
            parts.push(l);
            assert(views(parts@) =~= after_head + seq!["  Summary: "@ + s@]);
        },
        None => {
            assert(views(parts@) =~= after_head + seq![]);
        },
    }
    let ghost after_summary = views(parts@);
    let ns = &a.affected_nodes;
    let ghost nv = a@.affected_nodes;
    if ns.len() > 0 {
        parts.push(chars_of("  Affected elements:"));
        let ghost base = views(parts@);
        assert(base =~= after_summary + seq!["  Affected elements:"@]);
        let k: usize = if ns.len() < 3 {
            ns.len()
        } else {
            3
        };
        let mut j: usize = 0;
        while j < k
            invariant
                j <= k,
                k == min_int(3, nv.len() as int),
                nv == a@.affected_nodes,
                nv.len() == ns@.len(),
                forall|t: int| 0 <= t < ns@.len() ==> nv[t] == (#[trigger] ns@[t])@,
                views(parts@) == base + nv.take(j as int).map_values(
                    |n: AffectedNodeModel| element_line(n),
                ),
            decreases k - j,
        {
            let n: &AffectedNode = &ns[j];
            let mut l: Vec<char> = Vec::new();
            extend_str(&mut l, "    - ");
            extend_string(&mut l, &n.node_type);
            extend_str(&mut l, " ");
            extend_string(&mut l, &n.name);
            extend_str(&mut l, " (");
            if n.is_public {
                extend_str(&mut l, "");
            } else {
                extend_str(&mut l, "non-");
            }
            extend_str(&mut l, "public)");
            let ghost before = views(parts@);
            assert(l@ == element_line(nv[j as int]));
            parts.push(l);
            assert(views(parts@) =~= before.push(element_line(nv[j as int])));
            assert(nv.take(j + 1).map_values(|n: AffectedNodeModel| element_line(n)) =~= nv.take(
                j as int,
            ).map_values(|n: AffectedNodeModel| element_line(n)).push(element_line(nv[j as int])));
            j = j + 1;
        }
        assert(views(parts@) =~= start + file_prompt_lines(a@));
    } else {
        assert(views(parts@) =~= start + file_prompt_lines(a@));
    }
}

/// Builds the prompt that asks for a commit message from a diff analysis
/// and, where one is configured, the commit syntax to follow (see
/// `commit_prompt`).
pub fn generate_commit_prompt(diff_analysis: &DiffAnalysis, commit_syntax: Option<&String>) -> (res:
    String)
    ensures
        res@ == commit_prompt(
            diff_analysis@,
            match commit_syntax {
                Some(s) => Some(s@),
                None => None,
            },
        ),
{
    let ghost a = diff_analysis@;
    let mut parts: Vec<Vec<char>> = Vec::new();
    parts.push(chars_of("Generate a concise and informative commit message for the following changes:"));
    let mut summary: Vec<char> = Vec::new();
    extend_str(&mut summary, "\nOverall summary: ");
    extend_string(&mut summary, &diff_analysis.overall_summary);
    parts.push(summary);
    let ghost first = views(parts@);
    assert(first =~= seq![
        "Generate a concise and informative commit message for the following changes:"@,
        "\nOverall summary: "@ + a.overall_summary,
    ]);
    let fas = &diff_analysis.file_analyses;
    let ghost fv = a.file_analyses;
    if fas.len() > 0 {
        parts.push(chars_of("\nKey changes per file:"));
        let ghost base = views(parts@);
        let k: usize = if fas.len() < 5 {
            fas.len()
        } else {
            5
        };
        let mut i: usize = 0;
        while i < k
            invariant
                i <= k,
                k == min_int(5, fv.len() as int),
                fv == a.file_analyses,
                fv.len() == fas@.len(),
                forall|t: int| 0 <= t < fas@.len() ==> fv[t] == (#[trigger] fas@[t])@,
                views(parts@) == base + files_prompt_lines(fv.take(i as int)),
            decreases k - i,
        {
            assert(fv.take(i + 1).drop_last() =~= fv.take(i as int));
            push_file_lines(&mut parts, &fas[i]);
            assert(views(parts@) =~= base + files_prompt_lines(fv.take(i + 1)));
            i = i + 1;
        }
        assert(views(parts@) =~= first + (seq!["\nKey changes per file:"@] + files_prompt_lines(
            fv.take(min_int(5, fv.len() as int)),
        )));
    } else {
        assert(views(parts@) =~= first + seq![]);
    }
    let ghost middle = views(parts@);
    match commit_syntax {
        Some(s) => {
            parts.push(chars_of("\nAdhere to the following commit message syntax and conventions:"));
            parts.push(chars_of(s.as_str()));
            assert(views(parts@) =~= middle + seq![
                "\nAdhere to the following commit message syntax and conventions:"@,
                s@,
            ]);
        },
        None => {
            assert(views(parts@) =~= middle + seq![]);
        },
    }
    let ghost syn = match commit_syntax {
        Some(s) => Some(s@),
        None => None,
    };
    assert(views(parts@) =~= commit_prompt_lines(a, syn));
    let joined = join_parts(&parts, "\n");
    to_string(&joined)
}

} // verus!
