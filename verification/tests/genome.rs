use accneat::builder::{parse_organism, read_header, GenomeBuilder};
use accneat::genome::{classify, LineKind, ParseError, ParsedOrganism, RecordKind};
use accneat::number::Single;
use accneat::records::{
    GeneInfo, NodeInfo, NodeType, OrganismInfo, RecordError, TraitInfo,
};
use accneat::token::{extract_naturals, extract_numbers, Token};
use accneat::words::split_words;

fn single(x: f32) -> Single {
    Single::from_bits(x.to_bits())
}

fn lex(line: &str) -> Vec<Token> {
    let words = split_words(line);
    let mut tokens = Vec::new();
    for w in words {
        let number = w.parse::<f32>().ok().map(single);
        tokens.push(Token::new(w, number));
    }
    tokens
}

fn lex_all(text: &str) -> Vec<Vec<Token>> {
    text.lines().map(lex).collect()
}

const HEADER: &str = "# Organism #6 Fitness: 0.542682 Error: 1.82927 .";

const BODY: &str = "genomestart 6
trait 1 0.568373 0.112194 0.400981 0.918777 0.59396 0.239687 0.331848 0
node 1 1 0
node 2 1 1
node 3 1 1
node 4 1 2
node 5 1 3
node 6 1 3
gene 1 1 5 0.595938 0 1 0.595938 1
gene 1 1 6 0.442134 0 2 0.442134 1
gene 1 2 5 -0.440328 0 3 -0.440328 1
gene 1 2 6 -0.427128 0 4 -0.427128 1
gene 1 3 5 0.878225 0 5 0.878225 1
gene 1 3 6 0.60156 0 6 0.60156 1
gene 1 5 4 0.107134 0 7 0.107134 1
gene 1 6 4 -0.840043 0 8 -0.840043 1
genomeend 6";

fn example() -> String {
    format!("{}\n{}\n", HEADER, BODY)
}

#[test]
fn parses_the_example_dump() {
    let o = parse_organism(&lex_all(&example())).unwrap();
    assert_eq!(o.info.id, 6);
    assert_eq!(o.info.fitness, single(0.542682));
    assert_eq!(o.info.error, single(1.82927));

    assert_eq!(o.traits.len(), 1);
    assert_eq!(o.traits[0].id, 1);
    let params: Vec<f32> = vec![
        0.568373, 0.112194, 0.400981, 0.918777, 0.59396, 0.239687, 0.331848, 0.0,
    ];
    let expected: Vec<Single> = params.into_iter().map(single).collect();
    assert_eq!(o.traits[0].params, expected);

    let kinds = [
        NodeType::Bias,
        NodeType::Sensor,
        NodeType::Sensor,
        NodeType::Output,
        NodeType::Hidden,
        NodeType::Hidden,
    ];
    assert_eq!(o.nodes.len(), 6);
    for (i, kind) in kinds.iter().enumerate() {
        assert_eq!(o.nodes[i], NodeInfo { id: i as u64 + 1, trait_id: 1, type_: *kind });
    }

    let genes: Vec<(u64, u64, f32, u64)> = vec![
        (1, 5, 0.595938, 1),
        (1, 6, 0.442134, 2),
        (2, 5, -0.440328, 3),
        (2, 6, -0.427128, 4),
        (3, 5, 0.878225, 5),
        (3, 6, 0.60156, 6),
        (5, 4, 0.107134, 7),
        (6, 4, -0.840043, 8),
    ];
    assert_eq!(o.genes.len(), 8);
    for (i, (from, to, weight, innovation)) in genes.into_iter().enumerate() {
        assert_eq!(
            o.genes[i],
            GeneInfo {
                trait_id: 1,
                in_node_id: from,
                out_node_id: to,
                weight: single(weight),
                is_recurrent: false,
                innovation_num: innovation,
                mutation_num: single(weight),
                enable: true,
            }
        );
    }
}

#[test]
fn mismatched_closing_marker_is_refused() {
    let text = format!("{}\ngenomestart 6\nnode 1 1 0\ngenomeend 7\n", HEADER);
    let r = parse_organism(&lex_all(&text));
    assert_eq!(r.unwrap_err(), ParseError::BoundaryMismatch { line: 4 });
}

#[test]
fn mismatched_opening_marker_is_refused() {
    let text = format!("{}\ngenomestart 5\ngenomeend 6\n", HEADER);
    let r = parse_organism(&lex_all(&text));
    assert_eq!(r.unwrap_err(), ParseError::BoundaryMismatch { line: 2 });
}

#[test]
fn marker_before_any_header_is_refused() {
    let r = parse_organism(&lex_all("genomestart 6\ngenomeend 6\n"));
    assert_eq!(r.unwrap_err(), ParseError::BoundaryMismatch { line: 1 });
}

#[test]
fn marker_with_unreadable_id_is_refused() {
    let text = format!("{}\ngenomestart six\n", HEADER);
    let r = parse_organism(&lex_all(&text));
    assert_eq!(r.unwrap_err(), ParseError::BoundaryMismatch { line: 2 });
}

#[test]
fn trait_line_short_of_a_value_is_an_arity_failure() {
    let text = format!(
        "{}\ngenomestart 6\ntrait 1 0.5 0.1 oops 0.9 0.5 0.2 0.3 0\ngenomeend 6\n",
        HEADER
    );
    let r = parse_organism(&lex_all(&text));
    assert_eq!(r.unwrap_err(), ParseError::Arity { record: RecordKind::Trait, line: 3 });
}

#[test]
fn node_and_gene_lines_short_of_a_value_are_arity_failures() {
    let text = format!("{}\nnode 1 x 0\n", HEADER);
    assert_eq!(
        parse_organism(&lex_all(&text)).unwrap_err(),
        ParseError::Arity { record: RecordKind::Node, line: 2 }
    );
    let text = format!("{}\nnode 1 1 0\ngene 1 1 5 w 0 1 0.5 1\n", HEADER);
    assert_eq!(
        parse_organism(&lex_all(&text)).unwrap_err(),
        ParseError::Arity { record: RecordKind::Gene, line: 3 }
    );
}

#[test]
fn node_with_unknown_kind_is_refused() {
    let text = format!("{}\nnode 1 1 4\n", HEADER);
    assert_eq!(
        parse_organism(&lex_all(&text)).unwrap_err(),
        ParseError::UnknownNodeKind { line: 2 }
    );
}

#[test]
fn unrecognized_lines_are_refused() {
    let text = format!("{}\ngenomestart 6\none two three\n", HEADER);
    assert_eq!(
        parse_organism(&lex_all(&text)).unwrap_err(),
        ParseError::UnrecognizedLine { line: 3 }
    );
    let text = format!("{}\n\ngenomestart 6\n", HEADER);
    assert_eq!(
        parse_organism(&lex_all(&text)).unwrap_err(),
        ParseError::UnrecognizedLine { line: 2 }
    );
    let text = format!("{}\nknot 1 1 0\n", HEADER);
    assert_eq!(
        parse_organism(&lex_all(&text)).unwrap_err(),
        ParseError::UnrecognizedLine { line: 2 }
    );
    let text = format!("{}\ngenomestop 6\n", HEADER);
    assert_eq!(
        parse_organism(&lex_all(&text)).unwrap_err(),
        ParseError::UnrecognizedLine { line: 2 }
    );
}

#[test]
fn header_fields_are_read_strictly() {
    let bad_id = "# Organism #x Fitness: 0.5 Error: 1.0 .";
    assert_eq!(
        parse_organism(&lex_all(bad_id)).unwrap_err(),
        ParseError::NumericField { line: 1 }
    );
    let bad_fitness = "# Organism #6 Fitness: 54% Error: 1.0 .";
    assert_eq!(
        parse_organism(&lex_all(bad_fitness)).unwrap_err(),
        ParseError::NumericField { line: 1 }
    );
    let bad_error = "# Organism #6 Fitness: 0.5 Error: none .";
    assert_eq!(
        parse_organism(&lex_all(bad_error)).unwrap_err(),
        ParseError::NumericField { line: 1 }
    );
}

#[test]
fn dump_without_closing_marker_yields_what_was_gathered() {
    let text = format!("{}\ngenomestart 6\nnode 1 1 0\nnode 2 1 1\n", HEADER);
    let o = parse_organism(&lex_all(&text)).unwrap();
    assert_eq!(o.info.id, 6);
    assert_eq!(o.nodes.len(), 2);
    assert!(o.traits.is_empty());
    assert!(o.genes.is_empty());
}

#[test]
fn empty_dump_yields_the_unset_organism() {
    let o = parse_organism(&Vec::new()).unwrap();
    assert_eq!(o.info, OrganismInfo::default());
    assert!(o.traits.is_empty() && o.nodes.is_empty() && o.genes.is_empty());
}

#[test]
fn lines_after_the_closing_marker_are_not_read() {
    let text = format!("{}\nnode 1 1 0\ngenomeend 6\nthis is not a dump line\nnode 2 1 0\n", HEADER);
    let o = parse_organism(&lex_all(&text)).unwrap();
    assert_eq!(o.nodes.len(), 1);
}

#[test]
fn first_definition_of_a_trait_or_node_stays() {
    let text = format!(
        "{}\ngenomestart 6\n\
         trait 1 0.1 0.1 0.1 0.1 0.1 0.1 0.1 0.1\n\
         trait 2 0.2 0.2 0.2 0.2 0.2 0.2 0.2 0.2\n\
         trait 1 0.3 0.3 0.3 0.3 0.3 0.3 0.3 0.3\n\
         node 1 1 0\nnode 1 1 3\nnode 1 2 1\nnode 2 1 1\n\
         gene 1 1 2 0.5 0 1 0.5 1\ngene 1 1 2 0.5 0 1 0.5 1\n\
         genomeend 6\n",
        HEADER
    );
    let o = parse_organism(&lex_all(&text)).unwrap();
    assert_eq!(o.traits.len(), 2);
    assert_eq!(o.traits[0].id, 1);
    assert_eq!(o.traits[0].params, vec![single(0.1); 8]);
    assert_eq!(o.traits[1].id, 2);
    assert_eq!(o.nodes.len(), 3);
    assert_eq!(o.nodes[0], NodeInfo { id: 1, trait_id: 1, type_: NodeType::Bias });
    assert_eq!(o.nodes[1], NodeInfo { id: 1, trait_id: 2, type_: NodeType::Sensor });
    assert_eq!(o.nodes[2], NodeInfo { id: 2, trait_id: 1, type_: NodeType::Sensor });
    assert_eq!(o.genes.len(), 2);
}

#[test]
fn later_header_overwrites_the_earlier() {
    let text = "# Organism #6 Fitness: 0.5 Error: 1.0 .\n# Organism #7 Fitness: 0.25 Error: 2.0 .\ngenomeend 7\n";
    let o = parse_organism(&lex_all(text)).unwrap();
    assert_eq!(o.info, OrganismInfo { id: 7, fitness: single(0.25), error: single(2.0) });
}

#[test]
fn lines_are_classified_by_count_and_keyword() {
    assert_eq!(classify(&lex("a b c d e f g h")), LineKind::Header);
    assert_eq!(classify(&lex("trait 1 2 3 4 5 6 7 8 9")), LineKind::Trait);
    assert_eq!(classify(&lex("tract 1 2 3 4 5 6 7 8 9")), LineKind::Unrecognized);
    assert_eq!(classify(&lex("node 1 1 0")), LineKind::Node);
    assert_eq!(classify(&lex("gene 1 1 5 0.5 0 1 0.5 1")), LineKind::Gene);
    assert_eq!(classify(&lex("genomestart 6")), LineKind::GenomeStart);
    assert_eq!(classify(&lex("genomeend 6")), LineKind::GenomeEnd);
    assert_eq!(classify(&lex("genomeend")), LineKind::Unrecognized);
    assert_eq!(classify(&lex("")), LineKind::Unrecognized);
    assert_eq!(classify(&lex("node 1 1")), LineKind::Unrecognized);
}

#[test]
fn lenient_extraction_drops_what_does_not_read() {
    let tokens = lex("trait 1 x 2.5 y -3");
    assert_eq!(extract_numbers(&tokens, 1), vec![single(1.0), single(2.5), single(-3.0)]);
    assert_eq!(extract_numbers(&tokens, 0), vec![single(1.0), single(2.5), single(-3.0)]);
    assert_eq!(extract_numbers(&tokens, 6), Vec::<Single>::new());
    assert_eq!(extract_numbers(&tokens, 9), Vec::<Single>::new());
    let tokens = lex("node 1 2.5 x 7 -1 +3");
    assert_eq!(extract_naturals(&tokens, 1), vec![1, 7, 3]);
    assert_eq!(extract_naturals(&tokens, 4), vec![7, 3]);
    assert_eq!(extract_naturals(&tokens, 8), Vec::<u64>::new());
}

#[test]
fn strict_readings_of_a_token() {
    assert_eq!(Token::new("42".to_string(), None).natural(), Some(42));
    assert_eq!(Token::new("forty".to_string(), None).natural(), None);
    assert_eq!(Token::new("+42".to_string(), None).natural(), Some(42));
    assert_eq!(Token::new("007".to_string(), None).natural(), Some(7));
    assert_eq!(Token::new("".to_string(), None).natural(), None);
    assert_eq!(Token::new("+".to_string(), None).natural(), None);
    assert_eq!(Token::new("-0".to_string(), None).natural(), None);
    assert_eq!(Token::new("4 2".to_string(), None).natural(), None);
    assert_eq!(Token::new("++1".to_string(), None).natural(), None);
    assert_eq!(Token::new("18446744073709551615".to_string(), None).natural(), Some(u64::MAX));
    assert_eq!(Token::new("18446744073709551616".to_string(), None).natural(), None);
    assert_eq!(Token::new("#6".to_string(), None).tagged_natural(), Some(6));
    assert_eq!(Token::new("#".to_string(), None).tagged_natural(), None);
    assert_eq!(Token::new("".to_string(), None).tagged_natural(), None);
    assert_eq!(Token::new("#six".to_string(), None).tagged_natural(), None);
    assert_eq!(Token::new("\u{e9}12".to_string(), None).tagged_natural(), Some(12));
    assert!(Token::new("gene".to_string(), None).is("gene"));
    assert!(!Token::new("gene".to_string(), None).is("genes"));
}

#[test]
fn records_ask_for_runs_of_the_right_length() {
    let nine: Vec<Single> = (0..9).map(|i| single(i as f32 + 0.75)).collect();
    let t = TraitInfo::new(&nine).unwrap();
    assert_eq!(t.id, 0);
    assert_eq!(t.params, nine[1..].to_vec());
    assert_eq!(TraitInfo::new(&nine[..8].to_vec()).unwrap_err(), RecordError::WrongLength);
    assert_eq!(TraitInfo::new(&Vec::new()).unwrap_err(), RecordError::WrongLength);

    assert_eq!(
        NodeInfo::new(&vec![3, 9, 2]).unwrap(),
        NodeInfo { id: 3, trait_id: 9, type_: NodeType::Output }
    );
    assert_eq!(NodeInfo::new(&vec![3, 9]).unwrap_err(), RecordError::WrongLength);
    assert_eq!(NodeInfo::new(&vec![3, 9, 2, 1]).unwrap_err(), RecordError::WrongLength);
    assert_eq!(NodeInfo::new(&vec![3, 9, 4]).unwrap_err(), RecordError::UnknownKind);

    let eight: Vec<Single> =
        [2.0f32, 3.9, 4.0, -0.25, 0.5, 17.0, 0.125, 0.51].iter().map(|x| single(*x)).collect();
    assert_eq!(
        GeneInfo::new(&eight).unwrap(),
        GeneInfo {
            trait_id: 2,
            in_node_id: 3,
            out_node_id: 4,
            weight: single(-0.25),
            is_recurrent: false,
            innovation_num: 17,
            mutation_num: single(0.125),
            enable: true,
        }
    );
    assert_eq!(GeneInfo::new(&eight[1..].to_vec()).unwrap_err(), RecordError::WrongLength);
}

#[test]
fn node_kinds_and_their_codes() {
    let kinds = [NodeType::Bias, NodeType::Sensor, NodeType::Output, NodeType::Hidden];
    for (code, kind) in kinds.iter().enumerate() {
        assert_eq!(NodeType::from_code(code as u64), Some(*kind));
        assert_eq!(kind.code(), code as u64);
    }
    assert_eq!(NodeType::from_code(4), None);
    assert_eq!(NodeType::from_code(u64::MAX), None);
}

#[test]
fn identity_goes_by_ids_alone() {
    let a = TraitInfo { id: 1, params: vec![single(0.5); 8] };
    let b = TraitInfo { id: 1, params: vec![single(0.25); 8] };
    let c = TraitInfo { id: 2, params: vec![single(0.5); 8] };
    assert!(a.same_entity(&b));
    assert!(!a.same_entity(&c));
    let copy = a.duplicate();
    assert_eq!(copy.id, a.id);
    assert_eq!(copy.params, a.params);
    let n = NodeInfo { id: 1, trait_id: 1, type_: NodeType::Bias };
    let m = NodeInfo { id: 1, trait_id: 1, type_: NodeType::Hidden };
    let k = NodeInfo { id: 1, trait_id: 2, type_: NodeType::Bias };
    assert!(n.same_entity(&m));
    assert!(!n.same_entity(&k));
}

#[test]
fn unset_header_holds_the_sentinels() {
    let info = OrganismInfo::default();
    assert_eq!(info.id, u64::MAX);
    assert_eq!(info.fitness, single(-1.0));
    assert_eq!(info.error, single(100.0));
    assert_eq!(OrganismInfo::from_readings(Some(1), None, Some(single(1.0))), None);
    assert_eq!(OrganismInfo::from_readings(None, Some(single(1.0)), Some(single(1.0))), None);
    assert_eq!(OrganismInfo::from_readings(Some(1), Some(single(1.0)), None), None);
    assert_eq!(
        OrganismInfo::from_readings(Some(1), Some(single(0.5)), Some(single(2.0))),
        Some(OrganismInfo { id: 1, fitness: single(0.5), error: single(2.0) })
    );
}

#[test]
fn organism_put_together_from_parts_has_no_repetition() {
    let traits = vec![
        TraitInfo { id: 4, params: vec![single(0.5); 8] },
        TraitInfo { id: 4, params: vec![single(0.75); 8] },
        TraitInfo { id: 5, params: vec![single(0.25); 8] },
    ];
    let nodes = vec![
        NodeInfo { id: 1, trait_id: 4, type_: NodeType::Bias },
        NodeInfo { id: 2, trait_id: 4, type_: NodeType::Sensor },
        NodeInfo { id: 1, trait_id: 4, type_: NodeType::Output },
    ];
    let gene = GeneInfo {
        trait_id: 4,
        in_node_id: 1,
        out_node_id: 2,
        weight: single(0.5),
        is_recurrent: false,
        innovation_num: 1,
        mutation_num: single(0.5),
        enable: true,
    };
    let info = OrganismInfo { id: 9, fitness: single(0.5), error: single(0.25) };
    let o = ParsedOrganism::new(info, traits, nodes, vec![gene, gene]);
    assert_eq!(o.info, info);
    assert_eq!(o.traits.len(), 2);
    assert_eq!(o.traits[0].params, vec![single(0.5); 8]);
    assert_eq!(o.traits[1].id, 5);
    assert_eq!(o.nodes.len(), 2);
    assert_eq!(o.nodes[0].type_, NodeType::Bias);
    assert_eq!(o.genes, vec![gene, gene]);
}

#[test]
fn builder_reports_the_closing_marker() {
    let mut b = GenomeBuilder::new();
    assert_eq!(b.feed(&lex(HEADER), 1), Ok(false));
    assert_eq!(b.feed(&lex("genomestart 6"), 2), Ok(false));
    assert_eq!(b.feed(&lex("node 1 1 0"), 3), Ok(false));
    assert_eq!(b.feed(&lex("node 1 1 9"), 4), Err(ParseError::UnknownNodeKind { line: 4 }));
    assert_eq!(b.feed(&lex("genomeend 6"), 5), Ok(true));
    let o = b.finish();
    assert_eq!(o.info.id, 6);
    assert_eq!(o.nodes.len(), 1);
    assert!(GenomeBuilder::marks(Some(6), 6));
    assert!(!GenomeBuilder::marks(Some(7), 6));
    assert!(!GenomeBuilder::marks(None, 6));
}

#[test]
fn words_are_cut_at_blanks_and_control_bytes() {
    let words = split_words("  gene\t1  2\r\n");
    assert_eq!(words, vec!["gene".to_string(), "1".to_string(), "2".to_string()]);
    assert_eq!(split_words(""), Vec::<String>::new());
    assert_eq!(split_words(" \t "), Vec::<String>::new());
    assert_eq!(split_words("a\u{a0}b c"), vec!["a\u{a0}b".to_string(), "c".to_string()]);
}

#[test]
fn header_is_read_from_fixed_positions() {
    assert_eq!(
        read_header(&lex(HEADER)),
        Some(OrganismInfo { id: 6, fitness: single(0.542682), error: single(1.82927) })
    );
    assert_eq!(
        read_header(&lex("1 2 x3 4 5 6 7 8")),
        Some(OrganismInfo { id: 3, fitness: single(5.0), error: single(7.0) })
    );
    assert_eq!(read_header(&lex("1 2 #3 4 five 6 7 8")), None);
    assert_eq!(read_header(&lex("1 2 #3 4 5 6 7")), None);
    assert_eq!(read_header(&lex("1 2 #3 4 5 6 7 8 9")), None);
}
