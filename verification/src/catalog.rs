//! The metadata catalog: a fixed, case-sensitive mapping from blog page
//! identifiers to their literal (title, description, keywords) triple, with a
//! generic fallback triple for every identifier outside the known set.

use vstd::prelude::*;
use crate::text::str_eq;

verus! {

/// Title of the blog page with identifier `id`.
pub open spec fn catalog_title(id: Seq<char>) -> Seq<char> {
    if id == "clean-architecture-typescript"@ {
        "Clean Architecture em TypeScript | Edgar Janota"@
    } else if id == "rust-vs-nodejs-performance"@ {
        "Rust vs Node.js: Performance em Produção | Edgar Janota"@
    } else if id == "event-driven-microservices"@ {
        "Arquitetura Event-Driven com SAGA Pattern | Edgar Janota"@
    } else if id == "modress-case-study"@ {
        "Case Study: MODRESS - Marketplace Angolano | Edgar Janota"@
    } else {
        "Blog | Edgar Manuel Janota"@
    }
}

/// Description of the blog page with identifier `id`.
pub open spec fn catalog_description(id: Seq<char>) -> Seq<char> {
    if id == "clean-architecture-typescript"@ {
        "Guia de implementação de Clean Architecture em projetos Node.js e TypeScript, com exemplos práticos do projeto MODRESS e InstantPay."@
    } else if id == "rust-vs-nodejs-performance"@ {
        "Análise técnica comparando Rust e Node.js em cenários reais. Benchmarks, trade-offs e quando usar cada tecnologia baseado em projetos reais."@
    } else if id == "event-driven-microservices"@ {
        "Como implementei microservices event-driven com SAGA pattern no InstantPay. RabbitMQ, Redis, circuit breakers e eventual consistency."@
    } else if id == "modress-case-study"@ {
        "Como construímos o MODRESS, marketplace de moda que venceu a competição BNA. Stack técnica, desafios e soluções de arquitetura."@
    } else {
        "Artigos técnicos sobre desenvolvimento backend, arquitetura de software, performance e tecnologias modernas."@
    }
}

/// Keywords of the blog page with identifier `id`.
pub open spec fn catalog_keywords(id: Seq<char>) -> Seq<char> {
    if id == "clean-architecture-typescript"@ {
        "Clean Architecture, TypeScript, Node.js, DDD, Dependency Injection, Result Pattern, Functional Programming"@
    } else if id == "rust-vs-nodejs-performance"@ {
        "Rust, Node.js, Performance, Benchmarks, Backend Development, Systems Programming"@
    } else if id == "event-driven-microservices"@ {
        "Microservices, Event-Driven Architecture, SAGA Pattern, RabbitMQ, Redis, Distributed Systems"@
    } else if id == "modress-case-study"@ {
        "MODRESS, Marketplace, TypeScript, React, PostgreSQL, Event-Driven, Angola Tech"@
    } else {
        "Software Engineering, Backend Development, Architecture, Performance"@
    }
}

/// Looks the identifier up in the catalog: an exact, case-sensitive match
/// against the known identifiers yields that page's literal triple; any other
/// identifier yields the fallback triple.
pub fn blog_catalog_lookup(id: &str) -> (r: (String, String, String))
    ensures
        r.0@ == catalog_title(id@),
        r.1@ == catalog_description(id@),
        r.2@ == catalog_keywords(id@),
{
    if str_eq(id, "clean-architecture-typescript") {
        (
            "Clean Architecture em TypeScript | Edgar Janota".to_owned(),
            "Guia de implementação de Clean Architecture em projetos Node.js e TypeScript, com exemplos práticos do projeto MODRESS e InstantPay.".to_owned(),
            "Clean Architecture, TypeScript, Node.js, DDD, Dependency Injection, Result Pattern, Functional Programming".to_owned(),
        )
    } else if str_eq(id, "rust-vs-nodejs-performance") {
        (
            "Rust vs Node.js: Performance em Produção | Edgar Janota".to_owned(),
            "Análise técnica comparando Rust e Node.js em cenários reais. Benchmarks, trade-offs e quando usar cada tecnologia baseado em projetos reais.".to_owned(),
            "Rust, Node.js, Performance, Benchmarks, Backend Development, Systems Programming".to_owned(),
        )
    } else if str_eq(id, "event-driven-microservices") {
        (
            "Arquitetura Event-Driven com SAGA Pattern | Edgar Janota".to_owned(),
            "Como implementei microservices event-driven com SAGA pattern no InstantPay. RabbitMQ, Redis, circuit breakers e eventual consistency.".to_owned(),
            "Microservices, Event-Driven Architecture, SAGA Pattern, RabbitMQ, Redis, Distributed Systems".to_owned(),
        )
    } else if str_eq(id, "modress-case-study") {
        (
            "Case Study: MODRESS - Marketplace Angolano | Edgar Janota".to_owned(),
            "Como construímos o MODRESS, marketplace de moda que venceu a competição BNA. Stack técnica, desafios e soluções de arquitetura.".to_owned(),
            "MODRESS, Marketplace, TypeScript, React, PostgreSQL, Event-Driven, Angola Tech".to_owned(),
        )
    } else {
        (
            "Blog | Edgar Manuel Janota".to_owned(),
            "Artigos técnicos sobre desenvolvimento backend, arquitetura de software, performance e tecnologias modernas.".to_owned(),
            "Software Engineering, Backend Development, Architecture, Performance".to_owned(),
        )
    }
}

/// Law: an identifier outside the known set resolves to the fallback triple,
/// whatever the identifier is.
pub proof fn lemma_unknown_id_fallback(id: Seq<char>)
    requires
        id != "clean-architecture-typescript"@,
        id != "rust-vs-nodejs-performance"@,
        id != "event-driven-microservices"@,
        id != "modress-case-study"@,
    ensures
        catalog_title(id) == "Blog | Edgar Manuel Janota"@,
        catalog_description(id)
            == "Artigos técnicos sobre desenvolvimento backend, arquitetura de software, performance e tecnologias modernas."@,
        catalog_keywords(id)
            == "Software Engineering, Backend Development, Architecture, Performance"@,
{
}

} // verus!
