# blog_platform

A self-hosted blog platform whose static site generator, HTML rendering and
API decisions are written in Verus and proved against their contracts.

- `src/` is the verified library:
  - `text`, `json`, `json_text`: character-sequence operations, the JSON model
    and its JSON text;
  - `util`: slugs, URL checks and upload signatures;
  - `render`: server-side HTML of site chrome and content blocks;
  - `ssg`: escaping, theme variables, configuration merging and the HTML of
    published content blocks;
  - `site`: the plan of a static build (navigation, files and their template
    variables, sitemap, RSS feed) and the rendering of its pages with
    minijinja;
  - `deploy`: the wrangler command line and what its output reports;
  - `errors`, `api`, `handlers`: API errors and requests, what each request is
    checked against and answered, and server-rendered post pages.
- `app/` is the server around it: configuration, database access, reading
  templates and writing files, the axum routes and the admin views.
- `tests/` exercises the library on concrete values.
