//! The fixed page template that a rendered Markdown document is wrapped in.

use crate::text::{concat_text, push_text};
use vstd::prelude::*;

verus! {

/// The page chrome before the title: doctype, meta tags and the opening of
/// the `<title>` element.
pub const PAGE_HEAD: &'static str = r#"<!DOCTYPE html>
<html lang="en">
<head>
    <meta charset="UTF-8">
    <meta name="viewport" content="width=device-width, initial-scale=1.0">
    <title>"#;

/// The page chrome between the title and the body: the stylesheet and the
/// opening of the content container.
pub const PAGE_MIDDLE: &'static str = r#"</title>
    <style>
        body {
            font-family: -apple-system, BlinkMacSystemFont, 'Segoe UI', 'Roboto', 'Oxygen', 'Ubuntu', 'Cantarell', sans-serif;
            line-height: 1.6;
            color: #333;
            max-width: 800px;
            margin: 0 auto;
            padding: 20px;
            background-color: #fff;
        }

        h1, h2, h3, h4, h5, h6 {
            color: #2c3e50;
            margin-top: 30px;
            margin-bottom: 15px;
        }

        h1 {
            border-bottom: 2px solid #3498db;
            padding-bottom: 10px;
        }

        h2 {
            border-bottom: 1px solid #bdc3c7;
            padding-bottom: 5px;
        }

        p {
            margin-bottom: 15px;
        }

        code {
            background-color: #f8f9fa;
            padding: 2px 4px;
            border-radius: 3px;
            font-family: 'Monaco', 'Menlo', 'Ubuntu Mono', monospace;
            font-size: 0.9em;
        }

        pre {
            background-color: #f8f9fa;
            border: 1px solid #e9ecef;
            border-radius: 5px;
            padding: 15px;
            overflow-x: auto;
            margin: 20px 0;
        }

        pre code {
            background-color: transparent;
            padding: 0;
        }

        blockquote {
            border-left: 4px solid #3498db;
            margin: 20px 0;
            padding: 10px 20px;
            background-color: #f8f9fa;
            font-style: italic;
        }

        ul, ol {
            margin-bottom: 15px;
            padding-left: 30px;
        }

        li {
            margin-bottom: 5px;
        }

        table {
            border-collapse: collapse;
            width: 100%;
            margin: 20px 0;
        }

        th, td {
            border: 1px solid #ddd;
            padding: 12px;
            text-align: left;
        }

        th {
            background-color: #f8f9fa;
            font-weight: bold;
        }

        a {
            color: #3498db;
            text-decoration: none;
        }

        a:hover {
            text-decoration: underline;
        }

        img {
            max-width: 100%;
            height: auto;
            border-radius: 5px;
            margin: 10px 0;
        }

        hr {
            border: none;
            border-top: 1px solid #bdc3c7;
            margin: 30px 0;
        }

        .markdown-body {
            margin-top: 20px;
        }

        .back-link {
            display: inline-block;
            margin-bottom: 20px;
            color: #6c757d;
            font-size: 0.9em;
        }

        .back-link:hover {
            color: #3498db;
        }

        @media (max-width: 768px) {
            body {
                padding: 15px;
            }

            h1 {
                font-size: 1.8em;
            }

            pre {
                padding: 10px;
                font-size: 0.85em;
            }

            table {
                font-size: 0.9em;
            }
        }
    </style>
</head>
<body>
    <div class="markdown-body">
        "#;

/// The page chrome after the body: the closing of the content container and
/// the script that adds heading anchors and code copy buttons.
pub const PAGE_TAIL: &'static str = r#"
    </div>

    <script>
        // Add some interactivity for better UX
        document.addEventListener('DOMContentLoaded', function() {
            // Add anchor links to headings
            const headings = document.querySelectorAll('h1, h2, h3, h4, h5, h6');
            headings.forEach(function(heading) {
                if (heading.id) {
                    const anchor = document.createElement('a');
                    anchor.href = '#' + heading.id;
                    anchor.innerHTML = '#';
                    anchor.className = 'header-anchor';
                    anchor.style.cssText = 'margin-left: 10px; color: #bdc3c7; text-decoration: none; font-weight: normal;';
                    anchor.style.display = 'none';

                    heading.appendChild(anchor);

                    heading.addEventListener('mouseenter', function() {
                        anchor.style.display = 'inline';
                    });

                    heading.addEventListener('mouseleave', function() {
                        anchor.style.display = 'none';
                    });
                }
            });

            // Add copy button to code blocks
            const codeBlocks = document.querySelectorAll('pre code');
            codeBlocks.forEach(function(codeBlock) {
                const pre = codeBlock.parentElement;
                const button = document.createElement('button');
                button.textContent = 'Copy';
                button.style.cssText = 'position: absolute; top: 10px; right: 10px; background: #6c757d; color: white; border: none; padding: 5px 10px; border-radius: 3px; font-size: 0.8em; cursor: pointer;';

                pre.style.position = 'relative';
                pre.appendChild(button);

                button.addEventListener('click', function() {
                    navigator.clipboard.writeText(codeBlock.textContent).then(function() {
                        button.textContent = 'Copied!';
                        setTimeout(function() {
                            button.textContent = 'Copy';
                        }, 2000);
                    });
                });
            });

            console.log('📝 Markdown rendered successfully with Barleywine!');
        });
    </script>
</body>
</html>"#;

/// The complete page for a title and a body fragment.
pub open spec fn page_html(title: Seq<char>, body: Seq<char>) -> Seq<char> {
    PAGE_HEAD@ + title + PAGE_MIDDLE@ + body + PAGE_TAIL@
}

/// Wraps an HTML body fragment and a title into the fixed page template.
pub fn create_html_template(content: &str, title: &str) -> (r: String)
    ensures
        r@ == page_html(title@, content@),
{
    let mut page = concat_text(PAGE_HEAD, title);
    push_text(&mut page, PAGE_MIDDLE);
    push_text(&mut page, content);
    push_text(&mut page, PAGE_TAIL);
    page
}

} // verus!
